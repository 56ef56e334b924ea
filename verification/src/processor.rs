//! The transfer processor: validation, amount computation and the three
//! balance mutations, over an ordered list of accounts.

use vstd::prelude::*;

verus! {

use crate::account::{Account, AuthorityId, adjusted_account, copy_bytes, same_account};
use crate::amounts::{
    compute_tax_amount, lemma_tax_bounds, spec_burn_amount, spec_final_amount, spec_tax_amount,
    spec_transfer_amount,
};

/// Why an invocation was refused. Every failure is final: the host is
/// expected to discard all mutations of the invocation.
#[derive(Clone, Copy, Debug, PartialEq, Eq, Structural)]
pub enum TransferError {
    /// Fewer than three accounts were supplied.
    MissingAccount,
    /// Source, destination or burn sink lacks write permission.
    NotWritable,
    /// The source account's owner is not the invoking program.
    WrongAuthority,
    /// The destination's data buffer differs in size from the source's.
    BufferLengthMismatch,
    /// A balance credit would overflow.
    ArithmeticFault,
    /// The source balance does not cover the rent reserve of its own data,
    /// so no transfer amount is defined.
    BalanceBelowReserve,
}

/// The tax policy of one invocation: the rate as numerator over
/// denominator (floor division), and the authorities exempt from it.
pub struct TaxConfig {
    pub rate_numerator: u64,
    pub rate_denominator: u64,
    pub exempt_authorities: Vec<AuthorityId>,
}

impl TaxConfig {
    /// A usable policy: the rate is defined and no more than the whole.
    pub open spec fn wf(&self) -> bool {
        &&& 0 < self.rate_denominator
        &&& self.rate_numerator <= self.rate_denominator
    }

    /// The exempt authorities as bare byte strings.
    pub open spec fn exempt_views(&self) -> Seq<Seq<u8>> {
        self.exempt_authorities@.map_values(|a: AuthorityId| a@)
    }
}

/// The identity exempted by default: the all-zero 32-byte key.
pub open spec fn spec_whitelist_key() -> Seq<u8> {
    Seq::new(32, |i: int| 0u8)
}

/// The default exempt identity as a value.
pub fn whitelist_authority() -> (a: AuthorityId)
    ensures
        a@ == spec_whitelist_key(),
{
    let mut bytes: Vec<u8> = Vec::new();
    let mut i: usize = 0;
    while i < 32
        invariant
            0 <= i <= 32,
            bytes@ =~= Seq::new(i as nat, |j: int| 0u8),
        decreases 32 - i,
    {
        bytes.push(0u8);
        i = i + 1;
    }
    proof {
        assert(bytes@ =~= spec_whitelist_key());
    }
    AuthorityId { bytes }
}

/// The policy the plain entry point applies: one per hundred, with the
/// all-zero key exempt.
pub fn default_config() -> (c: TaxConfig)
    ensures
        c.rate_numerator == 1,
        c.rate_denominator == 100,
        c.exempt_views() =~= seq![spec_whitelist_key()],
        c.wf(),
{
    let wl = whitelist_authority();
    let mut exempt_authorities: Vec<AuthorityId> = Vec::new();
    exempt_authorities.push(wl);
    let c = TaxConfig { rate_numerator: 1, rate_denominator: 100, exempt_authorities };
    proof {
        assert(c.exempt_views() =~= seq![spec_whitelist_key()]);
    }
    c
}

/// Whether `owner` is one of the exempt identities.
pub open spec fn spec_is_exempt(owner: Seq<u8>, exempt: Seq<Seq<u8>>) -> bool {
    exists|i: int| 0 <= i < exempt.len() && exempt[i] == owner
}

/// Looks `owner` up in the exemption list.
pub fn is_exempt(owner: &AuthorityId, exempt: &Vec<AuthorityId>) -> (r: bool)
    ensures
        r == spec_is_exempt(owner@, exempt@.map_values(|a: AuthorityId| a@)),
{
    let ghost views = exempt@.map_values(|a: AuthorityId| a@);
    let n = exempt.len();
    let mut i: usize = 0;
    while i < n
        invariant
            0 <= i <= n,
            n == exempt@.len(),
            views == exempt@.map_values(|a: AuthorityId| a@),
            forall|j: int| 0 <= j < i ==> views[j] != owner@,
        decreases n - i,
    {
        if exempt[i].eq_id(owner) {
            proof {
                assert(views[i as int] == owner@);
            }
            return true;
        }
        i = i + 1;
    }
    false
}

/// All three accounts carry the caller's write permission.
pub open spec fn spec_writable(s: Account, d: Account, b: Account) -> bool {
    s.is_writable && d.is_writable && b.is_writable
}

/// What one invocation does to the triple (source, destination, burn sink),
/// given the policy `(num, den, exempt)` and the invoking program's
/// identity. `s0, d0, b0` are the accounts before the call, `s1, d1, b1`
/// after it, `r` its result. The checks fail in a fixed order; a failure
/// after the data copy or the source debit leaves those mutations in
/// place — the host is expected to discard them.
pub open spec fn spec_outcome(
    program_id: Seq<u8>,
    num: int,
    den: int,
    exempt_ids: Seq<Seq<u8>>,
    s0: Account,
    d0: Account,
    b0: Account,
    s1: Account,
    d1: Account,
    b1: Account,
    r: Result<(), TransferError>,
) -> bool {
    let t = spec_transfer_amount(s0);
    let exempt = spec_is_exempt(s0.owner@, exempt_ids);
    let tax = spec_tax_amount(t, exempt, num, den);
    let burn_amt = spec_burn_amount(tax);
    let fin = spec_final_amount(t, tax);
    let writable = spec_writable(s0, d0, b0);
    let auth = s0.owner@ == program_id;
    let reserve_ok = s0.data@.len() <= s0.balance;
    let len_ok = d0.data@.len() == s0.data@.len();
    let dest_fits = d0.balance + fin <= u64::MAX;
    let burn_fits = b0.balance + burn_amt <= u64::MAX;
    &&& (!writable ==> {
        &&& r == Err::<(), TransferError>(TransferError::NotWritable)
        &&& same_account(s1, s0)
        &&& same_account(d1, d0)
        &&& same_account(b1, b0)
    })
    &&& (writable && !auth ==> {
        &&& r == Err::<(), TransferError>(TransferError::WrongAuthority)
        &&& same_account(s1, s0)
        &&& same_account(d1, d0)
        &&& same_account(b1, b0)
    })
    &&& (writable && auth && !reserve_ok ==> {
        &&& r == Err::<(), TransferError>(TransferError::BalanceBelowReserve)
        &&& same_account(s1, s0)
        &&& same_account(d1, d0)
        &&& same_account(b1, b0)
    })
    &&& (writable && auth && reserve_ok && !len_ok ==> {
        &&& r == Err::<(), TransferError>(TransferError::BufferLengthMismatch)
        &&& same_account(s1, s0)
        &&& same_account(d1, d0)
        &&& same_account(b1, b0)
    })
    &&& (writable && auth && reserve_ok && len_ok && !dest_fits ==> {
        &&& r == Err::<(), TransferError>(TransferError::ArithmeticFault)
        &&& adjusted_account(s0, s1, s0.balance - tax, s0.data@)
        &&& adjusted_account(d0, d1, d0.balance as int, s0.data@)
        &&& same_account(b1, b0)
    })
    &&& (writable && auth && reserve_ok && len_ok && dest_fits && !burn_fits ==> {
        &&& r == Err::<(), TransferError>(TransferError::ArithmeticFault)
        &&& adjusted_account(s0, s1, s0.balance - tax, s0.data@)
        &&& adjusted_account(d0, d1, d0.balance + fin, s0.data@)
        &&& same_account(b1, b0)
    })
    &&& (writable && auth && reserve_ok && len_ok && dest_fits && burn_fits ==> {
        &&& r == Ok::<(), TransferError>(())
        &&& adjusted_account(s0, s1, s0.balance - tax, s0.data@)
        &&& adjusted_account(d0, d1, d0.balance + fin, s0.data@)
        &&& adjusted_account(b0, b1, b0.balance + burn_amt, b0.data@)
    })
}

/// Validates the triple, computes the amounts, copies the source's data
/// buffer over the destination's and applies the three balance updates:
/// source is debited the tax, the destination credited the transfer net of
/// tax, the burn sink credited half the tax.
pub fn process_accounts(
    num: u64,
    den: u64,
    exempt: &Vec<AuthorityId>,
    program_id: &AuthorityId,
    source: &mut Account,
    destination: &mut Account,
    burn_sink: &mut Account,
) -> (r: Result<(), TransferError>)
    requires
        0 < den,
        num <= den,
    ensures
        spec_outcome(
            program_id@,
            num as int,
            den as int,
            exempt@.map_values(|a: AuthorityId| a@),
            *old(source),
            *old(destination),
            *old(burn_sink),
            *final(source),
            *final(destination),
            *final(burn_sink),
            r,
        ),
{
    if !(source.is_writable && destination.is_writable && burn_sink.is_writable) {
        return Err(TransferError::NotWritable);
    }
    if !source.owner.eq_id(program_id) {
        return Err(TransferError::WrongAuthority);
    }
    let data_len = source.data.len();
    if source.balance < data_len as u64 {
        return Err(TransferError::BalanceBelowReserve);
    }
    let transfer_amount: u64 = source.balance - data_len as u64;
    let exempt_src = is_exempt(&source.owner, exempt);
    let tax_amount = compute_tax_amount(transfer_amount, exempt_src, num, den);
    let final_amount = transfer_amount - tax_amount;
    let burn_amount = tax_amount / 2;
    if destination.data.len() != data_len {
        return Err(TransferError::BufferLengthMismatch);
    }
    destination.data = copy_bytes(&source.data);
    source.balance = source.balance - tax_amount;
    if final_amount > u64::MAX - destination.balance {
        return Err(TransferError::ArithmeticFault);
    }
    destination.balance = destination.balance + final_amount;
    if burn_amount > u64::MAX - burn_sink.balance {
        return Err(TransferError::ArithmeticFault);
    }
    burn_sink.balance = burn_sink.balance + burn_amount;
    Ok(())
}

/// What an invocation over an ordered account list guarantees: with fewer
/// than three accounts nothing happens; otherwise the first three are the
/// source, destination and burn sink of one `spec_outcome` step and every
/// further account is untouched.
pub open spec fn spec_list_outcome(
    program_id: Seq<u8>,
    num: int,
    den: int,
    exempt_ids: Seq<Seq<u8>>,
    before: Seq<Account>,
    after: Seq<Account>,
    r: Result<(), TransferError>,
) -> bool {
    &&& (before.len() < 3 ==> r == Err::<(), TransferError>(TransferError::MissingAccount)
        && after == before)
    &&& (before.len() >= 3 ==> {
        &&& after.len() == before.len()
        &&& (forall|i: int| 3 <= i < before.len() ==> after[i] == before[i])
        &&& spec_outcome(
            program_id,
            num,
            den,
            exempt_ids,
            before[0],
            before[1],
            before[2],
            after[0],
            after[1],
            after[2],
            r,
        )
    })
}

/// Runs one invocation under an explicit policy. The accounts are, in
/// order: source, destination, burn sink; the instruction payload is
/// accepted but not interpreted.
pub fn process_with_config(
    config: &TaxConfig,
    program_id: &AuthorityId,
    accounts: &mut Vec<Account>,
    _instruction_data: &[u8],
) -> (r: Result<(), TransferError>)
    requires
        config.wf(),
    ensures
        spec_list_outcome(
            program_id@,
            config.rate_numerator as int,
            config.rate_denominator as int,
            config.exempt_views(),
            old(accounts)@,
            final(accounts)@,
            r,
        ),
{
    if accounts.len() < 3 {
        return Err(TransferError::MissingAccount);
    }
    let ghost before = accounts@;
    let mut source = accounts.remove(0);
    let mut destination = accounts.remove(0);
    let mut burn_sink = accounts.remove(0);
    proof {
        assert(accounts@ =~= before.subrange(3, before.len() as int));
    }
    let r = process_accounts(
        config.rate_numerator,
        config.rate_denominator,
        &config.exempt_authorities,
        program_id,
        &mut source,
        &mut destination,
        &mut burn_sink,
    );
    let ghost s1 = source;
    let ghost d1 = destination;
    let ghost b1 = burn_sink;
    accounts.insert(0, burn_sink);
    accounts.insert(0, destination);
    accounts.insert(0, source);
    proof {
        assert(accounts@ =~= seq![s1, d1, b1] + before.subrange(3, before.len() as int));
        assert forall|i: int| 3 <= i < before.len() implies accounts@[i] == before[i] by {
            assert(accounts@[i] == before.subrange(3, before.len() as int)[i - 3]);
        }
    }
    r
}

/// Runs one invocation under the default policy: one tax unit per hundred,
/// with the all-zero key exempt.
pub fn process_instruction(
    program_id: &AuthorityId,
    accounts: &mut Vec<Account>,
    instruction_data: &[u8],
) -> (r: Result<(), TransferError>)
    ensures
        spec_list_outcome(
            program_id@,
            1,
            100,
            seq![spec_whitelist_key()],
            old(accounts)@,
            final(accounts)@,
            r,
        ),
{
    let config = default_config();
    process_with_config(&config, program_id, accounts, instruction_data)
}

} // verus!
