//! All test environment inputs for an instruction: the fixture form of an
//! instruction context, its runtime form, and the conversions between them.
use vstd::prelude::*;

use crate::instr_account::{hash_proto_instr_accounts, instr_accounts_bytes, ProtoInstrAccount};
use crate::keccak::{keccak_absorbed, keccak_hash};
use crate::runtime::{
    active_features, compute_budget_new_with_defaults, default_compute_budget,
    feature_set_default, feature_set_is_active, pubkey_bytes, pubkey_eq, pubkey_new_from_array,
    pubkey_to_bytes, raise_cpi_nesting_limit_to_8_bytes, raise_cpi_nesting_limit_to_8_id,
};
use agave_feature_set::FeatureSet;
use solana_account::Account;
use solana_compute_budget::compute_budget::ComputeBudget;
use solana_pubkey::Pubkey;

verus! {

/// An account that an instruction takes, named by its address, with the
/// instruction's permissions on it (`solana_instruction::AccountMeta`).
#[derive(Clone, Copy, Debug, PartialEq, Eq)]
pub struct AccountMeta {
    pub pubkey: Pubkey,
    pub is_signer: bool,
    pub is_writable: bool,
}

/// An instruction context as a fixture holds it. Its nested messages (the
/// compute budget, the feature set, the sysvars and the account states) come
/// decoded; the program id is raw bytes, and the instruction accounts name
/// accounts by their position in `accounts`.
pub struct ProtoContext<S> {
    pub compute_budget: Option<ComputeBudget>,
    pub feature_set: Option<FeatureSet>,
    pub sysvars: Option<S>,
    pub program_id: Vec<u8>,
    pub instr_accounts: Vec<ProtoInstrAccount>,
    pub data: Vec<u8>,
    pub accounts: Vec<(Pubkey, Account)>,
}

/// Instruction context fixture.
#[derive(Debug, PartialEq)]
pub struct Context<S> {
    /// The compute budget to use for the simulation.
    pub compute_budget: ComputeBudget,
    /// The feature set to use for the simulation.
    pub feature_set: FeatureSet,
    /// The runtime sysvars to use for the simulation.
    pub sysvars: S,
    /// The program ID of the program being invoked.
    pub program_id: Pubkey,
    /// Accounts to pass to the instruction.
    pub instruction_accounts: Vec<AccountMeta>,
    /// The instruction data.
    pub instruction_data: Vec<u8>,
    /// Input accounts with state.
    pub accounts: Vec<(Pubkey, Account)>,
}

/// Every instruction account names a position inside `accounts`.
pub open spec fn indices_in_range(
    instr_accounts: Seq<ProtoInstrAccount>,
    accounts: Seq<(Pubkey, Account)>,
) -> bool {
    forall|i: int| 0 <= i < instr_accounts.len() ==> #[trigger] instr_accounts[i].index < accounts.len()
}

/// The account meta that a fixture's instruction account stands for: the
/// address of the account at its position, with its flags.
pub open spec fn resolved_meta(
    accounts: Seq<(Pubkey, Account)>,
    account: ProtoInstrAccount,
) -> AccountMeta {
    AccountMeta {
        pubkey: accounts[account.index as int].0,
        is_signer: account.is_signer,
        is_writable: account.is_writable,
    }
}

pub open spec fn resolved_metas(
    instr_accounts: Seq<ProtoInstrAccount>,
    accounts: Seq<(Pubkey, Account)>,
) -> Seq<AccountMeta> {
    Seq::new(instr_accounts.len(), |i: int| resolved_meta(accounts, instr_accounts[i]))
}

/// Some account in `accounts` has the address `key`.
pub open spec fn has_key(accounts: Seq<(Pubkey, Account)>, key: Pubkey) -> bool {
    exists|p: int| 0 <= p < accounts.len() && pubkey_bytes(#[trigger] accounts[p].0) == pubkey_bytes(key)
}

/// `p` is the first position in `accounts` whose address is `key`.
pub open spec fn is_first_key_position(accounts: Seq<(Pubkey, Account)>, key: Pubkey, p: int) -> bool {
    &&& 0 <= p < accounts.len()
    &&& pubkey_bytes(accounts[p].0) == pubkey_bytes(key)
    &&& forall|q: int| 0 <= q < p ==> pubkey_bytes(#[trigger] accounts[q].0) != pubkey_bytes(key)
}

/// The first position in `accounts` whose address is `key`.
pub open spec fn first_key_position(accounts: Seq<(Pubkey, Account)>, key: Pubkey) -> int {
    choose|p: int| is_first_key_position(accounts, key, p)
}

/// Every account meta's address is among `accounts`.
pub open spec fn keys_present(metas: Seq<AccountMeta>, accounts: Seq<(Pubkey, Account)>) -> bool {
    forall|i: int| 0 <= i < metas.len() ==> has_key(accounts, #[trigger] metas[i].pubkey)
}

/// The fixture form of an account meta: the first position of its address
/// among `accounts`, narrowed to 32 bits, with its flags.
pub open spec fn indexed_meta(accounts: Seq<(Pubkey, Account)>, meta: AccountMeta) -> ProtoInstrAccount {
    ProtoInstrAccount {
        index: first_key_position(accounts, meta.pubkey) as u32,
        is_signer: meta.is_signer,
        is_writable: meta.is_writable,
    }
}

pub open spec fn indexed_metas(
    metas: Seq<AccountMeta>,
    accounts: Seq<(Pubkey, Account)>,
) -> Seq<ProtoInstrAccount> {
    Seq::new(metas.len(), |i: int| indexed_meta(accounts, metas[i]))
}

/// The compute budget of a context: the given one, or the runtime's default
/// for whether the feature set activates SIMD-0268 (the raised CPI nesting
/// limit).
pub open spec fn spec_compute_budget(
    compute_budget: Option<ComputeBudget>,
    features: FeatureSet,
) -> ComputeBudget {
    match compute_budget {
        Some(budget) => budget,
        None => default_compute_budget(
            active_features(features).contains(raise_cpi_nesting_limit_to_8_bytes()),
            false,
        ),
    }
}

/// `context` is the runtime context that `value` decodes to: the program id
/// holds the fixture's bytes, each instruction account is resolved to the
/// address at its position, the data and accounts are carried over, a missing
/// feature set is the default one (no feature active), missing sysvars are
/// `S::default()`, and a missing compute budget is the runtime's default for
/// whether the feature set raises the CPI nesting limit.
pub open spec fn decodes_to<S: Default>(value: ProtoContext<S>, context: Context<S>) -> bool {
    &&& pubkey_bytes(context.program_id) == value.program_id@
    &&& context.instruction_accounts@ == resolved_metas(value.instr_accounts@, value.accounts@)
    &&& context.instruction_data@ == value.data@
    &&& context.accounts@ == value.accounts@
    &&& match value.feature_set {
        Some(features) => context.feature_set == features,
        None => active_features(context.feature_set) == Set::<Seq<u8>>::empty(),
    }
    &&& context.compute_budget == spec_compute_budget(value.compute_budget, context.feature_set)
    &&& match value.sysvars {
        Some(sysvars) => context.sysvars == sysvars,
        None => call_ensures(S::default, (), context.sysvars),
    }
}

/// `value` is the fixture that `context` encodes to: every part present, the
/// program id as its 32 bytes, each account meta named by the first position
/// of its address among the accounts, and the data and accounts carried over.
pub open spec fn encodes_to<S>(context: Context<S>, value: ProtoContext<S>) -> bool {
    &&& value.compute_budget == Some(context.compute_budget)
    &&& value.feature_set == Some(context.feature_set)
    &&& value.sysvars == Some(context.sysvars)
    &&& value.program_id@ == pubkey_bytes(context.program_id)
    &&& value.program_id@.len() == 32
    &&& value.instr_accounts@ == indexed_metas(context.instruction_accounts@, context.accounts@)
    &&& value.data@ == context.instruction_data@
    &&& value.accounts@ == context.accounts@
}

/// Every instruction account names the first account with its address.
pub open spec fn names_first_positions(
    instr_accounts: Seq<ProtoInstrAccount>,
    accounts: Seq<(Pubkey, Account)>,
) -> bool {
    forall|i: int|
        0 <= i < instr_accounts.len() ==> is_first_key_position(
            accounts,
            accounts[#[trigger] instr_accounts[i].index as int].0,
            instr_accounts[i].index as int,
        )
}

proof fn lemma_first_key_position_unique(accounts: Seq<(Pubkey, Account)>, key: Pubkey, p: int)
    requires
        is_first_key_position(accounts, key, p),
    ensures
        first_key_position(accounts, key) == p,
{
    let q = first_key_position(accounts, key);
    assert(is_first_key_position(accounts, key, q));
    if q < p {
        assert(pubkey_bytes(accounts[q].0) != pubkey_bytes(key));
    } else if p < q {
        assert(pubkey_bytes(accounts[p].0) != pubkey_bytes(key));
    }
}

/// The first position in `accounts` whose address is `key`, if any.
fn position_of_key(accounts: &Vec<(Pubkey, Account)>, key: &Pubkey) -> (r: Option<usize>)
    ensures
        r matches Some(p) ==> is_first_key_position(accounts@, *key, p as int)
            && first_key_position(accounts@, *key) == p,
        r is None <==> !has_key(accounts@, *key),
{
    let n = accounts.len();
    for i in 0..n
        invariant
            n == accounts@.len(),
            forall|q: int| 0 <= q < i ==> pubkey_bytes(#[trigger] accounts@[q].0) != pubkey_bytes(*key),
    {
        if pubkey_eq(&accounts[i].0, key) {
            proof {
                lemma_first_key_position_unique(accounts@, *key, i as int);
            }
            return Some(i);
        }
    }
    None
}

/// Decodes the program id, which a fixture holds as 32 raw bytes.
fn program_id_from_bytes(bytes: &Vec<u8>) -> (key: Pubkey)
    requires
        bytes@.len() == 32,
    ensures
        pubkey_bytes(key) == bytes@,
{
    let mut array = [0u8; 32];
    for i in 0..32
        invariant
            bytes@.len() == 32,
            forall|j: int| 0 <= j < i ==> array@[j] == bytes@[j],
    {
        array[i] = bytes[i];
    }
    assert(array@ == bytes@);
    pubkey_new_from_array(array)
}

/// Resolves each instruction account to the address at its position.
fn resolve_instruction_accounts(
    instr_accounts: &Vec<ProtoInstrAccount>,
    accounts: &Vec<(Pubkey, Account)>,
) -> (metas: Vec<AccountMeta>)
    requires
        indices_in_range(instr_accounts@, accounts@),
    ensures
        metas@ == resolved_metas(instr_accounts@, accounts@),
{
    let mut metas: Vec<AccountMeta> = Vec::new();
    let n = instr_accounts.len();
    for i in 0..n
        invariant
            n == instr_accounts@.len(),
            indices_in_range(instr_accounts@, accounts@),
            metas@ == resolved_metas(instr_accounts@.take(i as int), accounts@),
    {
        let account = instr_accounts[i];
        assert(account.index < accounts@.len());
        let (pubkey, _) = &accounts[account.index as usize];
        metas.push(AccountMeta { pubkey: *pubkey, is_signer: account.is_signer, is_writable: account.is_writable });
        assert(metas@ =~= resolved_metas(instr_accounts@.take(i + 1), accounts@));
    }
    assert(instr_accounts@.take(n as int) =~= instr_accounts@);
    metas
}

/// Names each account meta's address by its first position in `accounts`.
fn index_account_metas(metas: &Vec<AccountMeta>, accounts: &Vec<(Pubkey, Account)>) -> (r: Vec<ProtoInstrAccount>)
    requires
        keys_present(metas@, accounts@),
    ensures
        r@ == indexed_metas(metas@, accounts@),
{
    let mut r: Vec<ProtoInstrAccount> = Vec::new();
    let n = metas.len();
    for i in 0..n
        invariant
            n == metas@.len(),
            keys_present(metas@, accounts@),
            r@ == indexed_metas(metas@.take(i as int), accounts@),
    {
        let meta = metas[i];
        assert(has_key(accounts@, metas@[i as int].pubkey));
        let index_of_account = position_of_key(accounts, &meta.pubkey).unwrap();
        r.push(ProtoInstrAccount {
            index: index_of_account as u32,
            is_signer: meta.is_signer,
            is_writable: meta.is_writable,
        });
        assert(r@ =~= indexed_metas(metas@.take(i + 1), accounts@));
    }
    assert(metas@.take(n as int) =~= metas@);
    r
}

/// The compute budget of a decoded context: the given one, or else the
/// runtime's default for whether `features` raises the CPI nesting limit,
/// with the default cost schedule (`ComputeBudget::new_with_defaults` with
/// SIMD-0339 off, whose costs are `SVMTransactionExecutionCost::default()`).
pub fn compute_budget_or_default(
    compute_budget: Option<ComputeBudget>,
    features: &FeatureSet,
) -> (budget: ComputeBudget)
    ensures
        budget == spec_compute_budget(compute_budget, *features),
        compute_budget matches Some(given) ==> budget == given,
        compute_budget is None && active_features(*features).contains(raise_cpi_nesting_limit_to_8_bytes())
            ==> budget == default_compute_budget(true, false),
        compute_budget is None && !active_features(*features).contains(raise_cpi_nesting_limit_to_8_bytes())
            ==> budget == default_compute_budget(false, false),
{
    match compute_budget {
        Some(budget) => budget,
        None => {
            let feature_id = raise_cpi_nesting_limit_to_8_id();
            let simd_0268_active = feature_set_is_active(features, &feature_id);
            compute_budget_new_with_defaults(simd_0268_active, false)
        },
    }
}

impl<S> ProtoContext<S> {
    /// Whether the fixture can be decoded: the program id is 32 bytes and
    /// every instruction account names a position inside `accounts`.
    pub fn is_decodable(&self) -> (decodable: bool)
        ensures
            decodable == (self.program_id@.len() == 32 && indices_in_range(self.instr_accounts@, self.accounts@)),
    {
        if self.program_id.len() != 32 {
            return false;
        }
        let n = self.instr_accounts.len();
        for i in 0..n
            invariant
                n == self.instr_accounts@.len(),
                forall|j: int| 0 <= j < i ==> #[trigger] self.instr_accounts@[j].index < self.accounts@.len(),
        {
            if self.instr_accounts[i].index as usize >= self.accounts.len() {
                return false;
            }
        }
        true
    }
}

impl<S: Default> Context<S> {
    /// Builds the runtime context from a fixture: decodes the program id,
    /// resolves each instruction account to the address at its position,
    /// and fills in what the fixture leaves out: the default feature set,
    /// the default sysvars, and the runtime's default compute budget for
    /// whether the feature set raises the CPI nesting limit.
    pub fn from_proto(value: ProtoContext<S>) -> (context: Self)
        requires
            value.program_id@.len() == 32,
            indices_in_range(value.instr_accounts@, value.accounts@),
        ensures
            decodes_to(value, context),
    {
        let program_id = program_id_from_bytes(&value.program_id);
        let instruction_accounts = resolve_instruction_accounts(&value.instr_accounts, &value.accounts);
        let feature_set = match value.feature_set {
            Some(features) => features,
            None => feature_set_default(),
        };
        let compute_budget = compute_budget_or_default(value.compute_budget, &feature_set);
        let sysvars = match value.sysvars {
            Some(sysvars) => sysvars,
            None => S::default(),
        };
        Context {
            compute_budget,
            feature_set,
            sysvars,
            program_id,
            instruction_accounts,
            instruction_data: value.data,
            accounts: value.accounts,
        }
    }
}

impl<S: Default> Context<S> {
    /// `from_proto` where the fixture can be decoded; otherwise the fixture
    /// itself, unchanged, as the error.
    pub fn try_from_proto(value: ProtoContext<S>) -> (r: Result<Self, ProtoContext<S>>)
        ensures
            (value.program_id@.len() == 32 && indices_in_range(value.instr_accounts@, value.accounts@))
                ==> (r matches Ok(context) && decodes_to(value, context)),
            !(value.program_id@.len() == 32 && indices_in_range(value.instr_accounts@, value.accounts@))
                ==> r == Err::<Self, ProtoContext<S>>(value),
    {
        if value.is_decodable() {
            Ok(Self::from_proto(value))
        } else {
            Err(value)
        }
    }
}

impl<S> Context<S> {
    /// Writes the context back in fixture form: every part present, the
    /// program id as its 32 bytes, and each instruction account named by the
    /// first position of its address among the accounts.
    pub fn into_proto(self) -> (value: ProtoContext<S>)
        requires
            keys_present(self.instruction_accounts@, self.accounts@),
        ensures
            encodes_to(self, value),
    {
        let instr_accounts = index_account_metas(&self.instruction_accounts, &self.accounts);
        let program_id_bytes = pubkey_to_bytes(&self.program_id);
        let program_id = vstd::slice::slice_to_vec(&program_id_bytes);
        ProtoContext {
            compute_budget: Some(self.compute_budget),
            feature_set: Some(self.feature_set),
            sysvars: Some(self.sysvars),
            program_id,
            instr_accounts,
            data: self.instruction_data,
            accounts: self.accounts,
        }
    }
}

impl<S> Context<S> {
    /// Whether every account meta's address is among the accounts, which
    /// `into_proto` needs.
    pub fn account_keys_present(&self) -> (present: bool)
        ensures
            present == keys_present(self.instruction_accounts@, self.accounts@),
    {
        let n = self.instruction_accounts.len();
        for i in 0..n
            invariant
                n == self.instruction_accounts@.len(),
                forall|j: int| 0 <= j < i ==> has_key(self.accounts@, #[trigger] self.instruction_accounts@[j].pubkey),
        {
            if position_of_key(&self.accounts, &self.instruction_accounts[i].pubkey).is_none() {
                return false;
            }
        }
        true
    }

    /// `into_proto` where every account meta's address is among the
    /// accounts; otherwise the context itself, unchanged, as the error.
    pub fn try_into_proto(self) -> (r: Result<ProtoContext<S>, Self>)
        ensures
            keys_present(self.instruction_accounts@, self.accounts@) ==> (r matches Ok(value) && encodes_to(self, value)),
            !keys_present(self.instruction_accounts@, self.accounts@) ==> r == Err::<ProtoContext<S>, Self>(self),
    {
        if self.account_keys_present() {
            Ok(self.into_proto())
        } else {
            Err(self)
        }
    }
}

/// Feeds the fields of a fixture that this module encodes to the fingerprint
/// hasher: the program id bytes, then each instruction account (index in
/// little-endian order, signer flag byte, writable flag byte), then the
/// instruction data. The nested messages are fingerprinted by their own
/// encoders, before (compute budget, feature set, sysvars) and after
/// (account states) these fields.
pub fn hash_proto_context_fields<S>(hasher: &mut solana_keccak_hasher::Hasher, context: &ProtoContext<S>)
    ensures
        keccak_absorbed(*final(hasher)) == keccak_absorbed(*old(hasher)) + context.program_id@
            + instr_accounts_bytes(context.instr_accounts@) + context.data@,
{
    keccak_hash(hasher, context.program_id.as_slice());
    hash_proto_instr_accounts(hasher, context.instr_accounts.as_slice());
    keccak_hash(hasher, context.data.as_slice());
}

/// Fixture, then runtime, then fixture again: when each instruction account
/// names the first account with its address, resolving the positions to
/// addresses and naming the addresses by position again gives back the same
/// instruction accounts (and every resolved address is present, so the
/// second conversion applies).
pub proof fn lemma_instr_accounts_round_trip(
    instr_accounts: Seq<ProtoInstrAccount>,
    accounts: Seq<(Pubkey, Account)>,
)
    requires
        indices_in_range(instr_accounts, accounts),
        names_first_positions(instr_accounts, accounts),
    ensures
        keys_present(resolved_metas(instr_accounts, accounts), accounts),
        indexed_metas(resolved_metas(instr_accounts, accounts), accounts) == instr_accounts,
{
    let metas = resolved_metas(instr_accounts, accounts);
    assert forall|i: int| 0 <= i < metas.len() implies has_key(accounts, #[trigger] metas[i].pubkey) by {
        let p = instr_accounts[i].index as int;
        assert(is_first_key_position(accounts, accounts[p].0, p));
        assert(pubkey_bytes(accounts[p].0) == pubkey_bytes(metas[i].pubkey));
    }
    assert forall|i: int| 0 <= i < instr_accounts.len() implies #[trigger] indexed_metas(metas, accounts)[i]
        == instr_accounts[i] by {
        let p = instr_accounts[i].index as int;
        assert(is_first_key_position(accounts, accounts[p].0, p));
        lemma_first_key_position_unique(accounts, metas[i].pubkey, p);
    }
    assert(indexed_metas(metas, accounts) =~= instr_accounts);
}

/// Runtime, then fixture, then runtime again: naming each account meta's
/// address by its first position and resolving the positions again gives
/// back account metas with the same addresses and flags, provided that
/// every position fits the fixture's 32-bit index.
pub proof fn lemma_account_metas_round_trip(metas: Seq<AccountMeta>, accounts: Seq<(Pubkey, Account)>)
    requires
        keys_present(metas, accounts),
        accounts.len() <= 0x1_0000_0000,
    ensures
        indices_in_range(indexed_metas(metas, accounts), accounts),
        resolved_metas(indexed_metas(metas, accounts), accounts).len() == metas.len(),
        forall|i: int|
            0 <= i < metas.len() ==> {
                let back = #[trigger] resolved_metas(indexed_metas(metas, accounts), accounts)[i];
                &&& pubkey_bytes(back.pubkey) == pubkey_bytes(metas[i].pubkey)
                &&& back.is_signer == metas[i].is_signer
                &&& back.is_writable == metas[i].is_writable
            },
{
    let indexed = indexed_metas(metas, accounts);
    assert forall|i: int| 0 <= i < metas.len() implies {
        &&& is_first_key_position(accounts, metas[i].pubkey, first_key_position(accounts, metas[i].pubkey))
        &&& (#[trigger] indexed[i]).index == first_key_position(accounts, metas[i].pubkey)
    } by {
        let key = metas[i].pubkey;
        assert(has_key(accounts, key));
        let w = choose|p: int| 0 <= p < accounts.len() && pubkey_bytes(#[trigger] accounts[p].0) == pubkey_bytes(key);
        lemma_first_position_exists(accounts, key, w);
        let f = first_key_position(accounts, key);
        assert(0 <= f < 0x1_0000_0000);
    }
}

/// A position holding the address `key` implies a first such position.
proof fn lemma_first_position_exists(accounts: Seq<(Pubkey, Account)>, key: Pubkey, w: int)
    requires
        0 <= w < accounts.len(),
        pubkey_bytes(accounts[w].0) == pubkey_bytes(key),
    ensures
        is_first_key_position(accounts, key, first_key_position(accounts, key)),
    decreases w,
{
    if forall|q: int| 0 <= q < w ==> pubkey_bytes(#[trigger] accounts[q].0) != pubkey_bytes(key) {
        assert(is_first_key_position(accounts, key, w));
    } else {
        let q = choose|q: int| 0 <= q < w && pubkey_bytes(#[trigger] accounts[q].0) == pubkey_bytes(key);
        lemma_first_position_exists(accounts, key, q);
    }
}

/// A fixture decoded and encoded again: when each instruction account names
/// the first account with its address, the encoding applies and gives back
/// the program id bytes, the instruction accounts, the data and the accounts,
/// and every part the fixture gave.
pub proof fn lemma_fixture_round_trip<S: Default>(
    value: ProtoContext<S>,
    context: Context<S>,
    back: ProtoContext<S>,
)
    requires
        indices_in_range(value.instr_accounts@, value.accounts@),
        names_first_positions(value.instr_accounts@, value.accounts@),
        decodes_to(value, context),
        encodes_to(context, back),
    ensures
        keys_present(context.instruction_accounts@, context.accounts@),
        back.program_id@ == value.program_id@,
        back.instr_accounts@ == value.instr_accounts@,
        back.data@ == value.data@,
        back.accounts@ == value.accounts@,
        value.compute_budget is Some ==> back.compute_budget == value.compute_budget,
        value.feature_set is Some ==> back.feature_set == value.feature_set,
        value.sysvars is Some ==> back.sysvars == value.sysvars,
{
    lemma_instr_accounts_round_trip(value.instr_accounts@, value.accounts@);
}

/// A runtime context encoded and decoded again: when every account meta's
/// address is among the accounts and every position fits the fixture's
/// 32-bit index, the decoding applies and gives back the same parts, with the
/// program id and the account metas' addresses holding the same bytes.
pub proof fn lemma_context_round_trip<S: Default>(
    context: Context<S>,
    value: ProtoContext<S>,
    back: Context<S>,
)
    requires
        keys_present(context.instruction_accounts@, context.accounts@),
        context.accounts@.len() <= 0x1_0000_0000,
        encodes_to(context, value),
        decodes_to(value, back),
    ensures
        value.program_id@.len() == 32,
        indices_in_range(value.instr_accounts@, value.accounts@),
        pubkey_bytes(back.program_id) == pubkey_bytes(context.program_id),
        back.instruction_accounts@.len() == context.instruction_accounts@.len(),
        forall|i: int|
            0 <= i < context.instruction_accounts@.len() ==> {
                let meta = #[trigger] back.instruction_accounts@[i];
                &&& pubkey_bytes(meta.pubkey) == pubkey_bytes(context.instruction_accounts@[i].pubkey)
                &&& meta.is_signer == context.instruction_accounts@[i].is_signer
                &&& meta.is_writable == context.instruction_accounts@[i].is_writable
            },
        back.instruction_data@ == context.instruction_data@,
        back.accounts@ == context.accounts@,
        back.compute_budget == context.compute_budget,
        back.feature_set == context.feature_set,
        back.sysvars == context.sysvars,
{
    lemma_account_metas_round_trip(context.instruction_accounts@, context.accounts@);
}

/// A compute budget that the fixture gives is the context's budget, whatever
/// the feature set: two fixtures that give the same budget decode to contexts
/// with that same budget.
pub proof fn lemma_given_budget_passes_through<S: Default>(
    value1: ProtoContext<S>,
    context1: Context<S>,
    value2: ProtoContext<S>,
    context2: Context<S>,
)
    requires
        value1.compute_budget is Some,
        value1.compute_budget == value2.compute_budget,
        decodes_to(value1, context1),
        decodes_to(value2, context2),
    ensures
        context1.compute_budget == value1.compute_budget.unwrap(),
        context2.compute_budget == value1.compute_budget.unwrap(),
{
}

/// No two accounts have the same address.
pub open spec fn addresses_distinct(accounts: Seq<(Pubkey, Account)>) -> bool {
    forall|i: int, j: int|
        0 <= i < j < accounts.len() ==> pubkey_bytes(#[trigger] accounts[i].0) != pubkey_bytes(
            #[trigger] accounts[j].0,
        )
}

/// With distinct addresses, every in-range index names the first (and only)
/// account with its address.
pub proof fn lemma_distinct_addresses_name_first_positions(
    instr_accounts: Seq<ProtoInstrAccount>,
    accounts: Seq<(Pubkey, Account)>,
)
    requires
        indices_in_range(instr_accounts, accounts),
        addresses_distinct(accounts),
    ensures
        names_first_positions(instr_accounts, accounts),
{
    assert forall|i: int| 0 <= i < instr_accounts.len() implies is_first_key_position(
        accounts,
        accounts[#[trigger] instr_accounts[i].index as int].0,
        instr_accounts[i].index as int,
    ) by {
        let p = instr_accounts[i].index as int;
        assert forall|q: int| 0 <= q < p implies pubkey_bytes(#[trigger] accounts[q].0) != pubkey_bytes(
            accounts[p].0,
        ) by {
            assert(pubkey_bytes(accounts[q].0) != pubkey_bytes(accounts[p].0));
        }
    }
}

/// A fixture whose accounts have distinct addresses decodes and encodes back
/// to the same program id bytes, instruction accounts, data and accounts,
/// and to every part it gave.
pub proof fn lemma_fixture_round_trip_distinct_addresses<S: Default>(
    value: ProtoContext<S>,
    context: Context<S>,
    back: ProtoContext<S>,
)
    requires
        indices_in_range(value.instr_accounts@, value.accounts@),
        addresses_distinct(value.accounts@),
        decodes_to(value, context),
        encodes_to(context, back),
    ensures
        keys_present(context.instruction_accounts@, context.accounts@),
        back.program_id@ == value.program_id@,
        back.instr_accounts@ == value.instr_accounts@,
        back.data@ == value.data@,
        back.accounts@ == value.accounts@,
        value.compute_budget is Some ==> back.compute_budget == value.compute_budget,
        value.feature_set is Some ==> back.feature_set == value.feature_set,
        value.sysvars is Some ==> back.sysvars == value.sysvars,
{
    lemma_distinct_addresses_name_first_positions(value.instr_accounts@, value.accounts@);
    lemma_fixture_round_trip(value, context, back);
}

/// Decoding then encoding moves each instruction account's index to the
/// first account with the same address (never later than it was), and the
/// result is a fixed point: decoding and encoding it again leaves its
/// instruction accounts unchanged.
pub proof fn lemma_decode_encode_fixed_point<S: Default>(
    value: ProtoContext<S>,
    context: Context<S>,
    once: ProtoContext<S>,
    context_again: Context<S>,
    twice: ProtoContext<S>,
)
    requires
        indices_in_range(value.instr_accounts@, value.accounts@),
        decodes_to(value, context),
        encodes_to(context, once),
        decodes_to(once, context_again),
        encodes_to(context_again, twice),
    ensures
        keys_present(context.instruction_accounts@, context.accounts@),
        once.instr_accounts@.len() == value.instr_accounts@.len(),
        forall|i: int|
            0 <= i < value.instr_accounts@.len() ==> {
                let p = value.instr_accounts@[i].index as int;
                &&& is_first_key_position(
                    value.accounts@,
                    value.accounts@[p].0,
                    (#[trigger] once.instr_accounts@[i]).index as int,
                )
                &&& once.instr_accounts@[i].index <= value.instr_accounts@[i].index
            },
        indices_in_range(once.instr_accounts@, once.accounts@),
        keys_present(context_again.instruction_accounts@, context_again.accounts@),
        twice.instr_accounts@ == once.instr_accounts@,
{
    let accounts = value.accounts@;
    let metas = context.instruction_accounts@;
    assert forall|i: int| 0 <= i < metas.len() implies has_key(accounts, #[trigger] metas[i].pubkey) by {
        let p = value.instr_accounts@[i].index as int;
        assert(pubkey_bytes(accounts[p].0) == pubkey_bytes(metas[i].pubkey));
    }
    assert forall|i: int| 0 <= i < value.instr_accounts@.len() implies {
        let p = value.instr_accounts@[i].index as int;
        &&& is_first_key_position(accounts, accounts[p].0, (#[trigger] once.instr_accounts@[i]).index as int)
        &&& once.instr_accounts@[i].index <= value.instr_accounts@[i].index
    } by {
        let p = value.instr_accounts@[i].index as int;
        let key = metas[i].pubkey;
        lemma_first_position_exists(accounts, key, p);
        let f = first_key_position(accounts, key);
        assert(f <= p);
        assert(once.instr_accounts@[i].index == f);
    }
    assert(names_first_positions(once.instr_accounts@, once.accounts@)) by {
        assert forall|i: int| 0 <= i < once.instr_accounts@.len() implies is_first_key_position(
            once.accounts@,
            once.accounts@[#[trigger] once.instr_accounts@[i].index as int].0,
            once.instr_accounts@[i].index as int,
        ) by {
            let p = value.instr_accounts@[i].index as int;
            let f = once.instr_accounts@[i].index as int;
            assert(is_first_key_position(accounts, accounts[p].0, f));
        }
    }
    lemma_fixture_round_trip(once, context_again, twice);
}

/// The compute budget of a context: a given budget is kept; with none given,
/// the budget is the runtime default with the raised CPI nesting limit
/// exactly when the feature set activates that feature, and it depends on no
/// other feature: two feature sets that agree on that feature give the same
/// budget.
pub proof fn lemma_compute_budget_choice(given: ComputeBudget, features: FeatureSet, other: FeatureSet)
    ensures
        spec_compute_budget(Some(given), features) == given,
        active_features(features).contains(raise_cpi_nesting_limit_to_8_bytes()) ==> spec_compute_budget(
            None,
            features,
        ) == default_compute_budget(true, false),
        !active_features(features).contains(raise_cpi_nesting_limit_to_8_bytes()) ==> spec_compute_budget(
            None,
            features,
        ) == default_compute_budget(false, false),
        active_features(features).contains(raise_cpi_nesting_limit_to_8_bytes()) == active_features(
            other,
        ).contains(raise_cpi_nesting_limit_to_8_bytes()) ==> spec_compute_budget(None, features)
            == spec_compute_budget(None, other),
{
}

} // verus!
