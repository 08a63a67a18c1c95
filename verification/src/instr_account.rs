//! Instruction accounts: the wire form of a fixture (`ProtoInstrAccount`),
//! the runtime form (`InstructionAccount`), the conversions between them,
//! and the bytes they contribute to a fixture's fingerprint.
use vstd::prelude::*;

use crate::keccak::{keccak_absorbed, keccak_hash};

verus! {

/// An instruction account as a fixture stores it: the position of the account
/// among the transaction's accounts and its two permission flags.
#[derive(Clone, Copy, Debug, PartialEq, Eq, Structural)]
pub struct ProtoInstrAccount {
    pub index: u32,
    pub is_signer: bool,
    pub is_writable: bool,
}

/// The runtime's instruction account (`solana_transaction_context`'s
/// `InstructionAccount`): the account's index in the transaction, which the
/// runtime holds as a `u16`, and the two permission flags.
#[derive(Clone, Copy, Debug, PartialEq, Eq, Structural)]
pub struct InstructionAccount {
    pub index_in_transaction: u16,
    pub is_signer: bool,
    pub is_writable: bool,
}

impl InstructionAccount {
    pub fn new(index_in_transaction: u16, is_signer: bool, is_writable: bool) -> (r: Self)
        ensures
            r.index_in_transaction == index_in_transaction,
            r.is_signer == is_signer,
            r.is_writable == is_writable,
    {
        InstructionAccount { index_in_transaction, is_signer, is_writable }
    }

    pub fn is_signer(&self) -> (r: bool)
        ensures
            r == self.is_signer,
    {
        self.is_signer
    }

    pub fn is_writable(&self) -> (r: bool)
        ensures
            r == self.is_writable,
    {
        self.is_writable
    }
}

/// The runtime account that a fixture's instruction account describes. The
/// index is narrowed to the runtime's 16 bits, keeping the low 16 bits.
pub open spec fn spec_instruction_account(value: ProtoInstrAccount) -> InstructionAccount {
    InstructionAccount {
        index_in_transaction: (value.index % 0x10000) as u16,
        is_signer: value.is_signer,
        is_writable: value.is_writable,
    }
}

/// The fixture form of a runtime instruction account.
pub open spec fn spec_proto_instr_account(value: InstructionAccount) -> ProtoInstrAccount {
    ProtoInstrAccount {
        index: value.index_in_transaction as u32,
        is_signer: value.is_signer,
        is_writable: value.is_writable,
    }
}

/// Converts to the runtime form; an index above `u16::MAX` keeps its low 16
/// bits, as the `as u16` cast in the runtime constructor's call does.
impl From<ProtoInstrAccount> for InstructionAccount {
    fn from(value: ProtoInstrAccount) -> (r: Self)
        ensures
            r.index_in_transaction == value.index % 0x10000,
            r.is_signer == value.is_signer,
            r.is_writable == value.is_writable,
    {
        let ProtoInstrAccount { index, is_signer, is_writable } = value;
        let narrowed: u16 = (index % 0x10000) as u16;
        InstructionAccount::new(narrowed, is_signer, is_writable)
    }
}

impl vstd::std_specs::convert::FromSpecImpl<ProtoInstrAccount> for InstructionAccount {
    open spec fn obeys_from_spec() -> bool {
        true
    }

    open spec fn from_spec(value: ProtoInstrAccount) -> Self {
        spec_instruction_account(value)
    }
}

impl From<InstructionAccount> for ProtoInstrAccount {
    fn from(value: InstructionAccount) -> (r: Self)
        ensures
            r.index == value.index_in_transaction,
            r.is_signer == value.is_signer,
            r.is_writable == value.is_writable,
    {
        ProtoInstrAccount {
            index: value.index_in_transaction as u32,
            is_signer: value.is_signer(),
            is_writable: value.is_writable(),
        }
    }
}

impl vstd::std_specs::convert::FromSpecImpl<InstructionAccount> for ProtoInstrAccount {
    open spec fn obeys_from_spec() -> bool {
        true
    }

    open spec fn from_spec(value: InstructionAccount) -> Self {
        spec_proto_instr_account(value)
    }
}

/// A flag as the fingerprint encodes it: one byte, 1 for set and 0 for clear.
pub open spec fn flag_byte(b: bool) -> u8 {
    if b { 1 } else { 0 }
}

/// The bytes one instruction account contributes to a fingerprint: its index
/// in little-endian order, then its signer flag, then its writable flag.
pub open spec fn instr_account_bytes(account: ProtoInstrAccount) -> Seq<u8> {
    vstd::bytes::spec_u32_to_le_bytes(account.index) + seq![flag_byte(account.is_signer)] + seq![
        flag_byte(account.is_writable),
    ]
}

/// The bytes a list of instruction accounts contributes, account by account.
pub open spec fn instr_accounts_bytes(accounts: Seq<ProtoInstrAccount>) -> Seq<u8>
    decreases accounts.len(),
{
    if accounts.len() == 0 {
        Seq::empty()
    } else {
        instr_accounts_bytes(accounts.drop_last()) + instr_account_bytes(accounts.last())
    }
}

fn flag_to_byte(b: bool) -> (r: u8)
    ensures
        r == flag_byte(b),
{
    if b {
        1
    } else {
        0
    }
}

/// Feeds the instruction accounts to the fingerprint hasher.
pub fn hash_proto_instr_accounts(
    hasher: &mut solana_keccak_hasher::Hasher,
    instr_accounts: &[ProtoInstrAccount],
)
    ensures
        keccak_absorbed(*final(hasher)) == keccak_absorbed(*old(hasher)) + instr_accounts_bytes(
            instr_accounts@,
        ),
{
    let n = instr_accounts.len();
    for i in 0..n
        invariant
            n == instr_accounts@.len(),
            keccak_absorbed(*hasher) == keccak_absorbed(*old(hasher)) + instr_accounts_bytes(
                instr_accounts@.take(i as int),
            ),
    {
        let account = instr_accounts[i];
        let index_bytes = vstd::bytes::u32_to_le_bytes(account.index);
        keccak_hash(hasher, index_bytes.as_slice());
        let signer = [flag_to_byte(account.is_signer)];
        keccak_hash(hasher, &signer);
        let writable = [flag_to_byte(account.is_writable)];
        keccak_hash(hasher, &writable);
        proof {
            assert(instr_accounts@.take(i + 1).drop_last() == instr_accounts@.take(i as int));
            assert(instr_account_bytes(account) == index_bytes@ + signer@ + writable@);
        }
    }
    proof {
        assert(instr_accounts@.take(n as int) == instr_accounts@);
    }
}

/// Runtime, then fixture, then runtime again gives back the same account.
pub proof fn lemma_instruction_account_round_trip(account: InstructionAccount)
    ensures
        spec_instruction_account(spec_proto_instr_account(account)) == account,
{
}

/// Fixture, then runtime, then fixture again gives back the same account
/// exactly when its index fits the runtime's 16 bits.
pub proof fn lemma_proto_instr_account_round_trip(account: ProtoInstrAccount)
    ensures
        spec_proto_instr_account(spec_instruction_account(account)) == account <==> account.index
            <= u16::MAX,
{
}

/// The fingerprint of a list of instruction accounts is the fingerprint of
/// its first part followed by that of its second part.
pub proof fn lemma_instr_accounts_bytes_append(a: Seq<ProtoInstrAccount>, b: Seq<ProtoInstrAccount>)
    ensures
        instr_accounts_bytes(a + b) == instr_accounts_bytes(a) + instr_accounts_bytes(b),
    decreases b.len(),
{
    if b.len() == 0 {
        assert(a + b =~= a);
    } else {
        lemma_instr_accounts_bytes_append(a, b.drop_last());
        assert((a + b).drop_last() =~= a + b.drop_last());
        assert((a + b).last() == b.last());
    }
}

/// Every instruction account contributes six bytes to the fingerprint.
pub proof fn lemma_instr_accounts_bytes_len(accounts: Seq<ProtoInstrAccount>)
    ensures
        instr_accounts_bytes(accounts).len() == 6 * accounts.len(),
    decreases accounts.len(),
{
    if accounts.len() > 0 {
        lemma_instr_accounts_bytes_len(accounts.drop_last());
        vstd::bytes::lemma_auto_spec_u32_to_from_le_bytes();
    }
}

/// Converting a fixture account to the runtime keeps both flags as they are
/// and keeps the index modulo 2^16; converting a runtime account to the
/// fixture keeps both flags and the index as it is.
pub proof fn lemma_conversions_keep_fields(proto: ProtoInstrAccount, account: InstructionAccount)
    ensures
        <InstructionAccount as vstd::std_specs::convert::FromSpec<ProtoInstrAccount>>::from_spec(
            proto,
        ).index_in_transaction == proto.index % 0x10000,
        <InstructionAccount as vstd::std_specs::convert::FromSpec<ProtoInstrAccount>>::from_spec(
            proto,
        ).is_signer == proto.is_signer,
        <InstructionAccount as vstd::std_specs::convert::FromSpec<ProtoInstrAccount>>::from_spec(
            proto,
        ).is_writable == proto.is_writable,
        <ProtoInstrAccount as vstd::std_specs::convert::FromSpec<InstructionAccount>>::from_spec(
            account,
        ).index == account.index_in_transaction,
        <ProtoInstrAccount as vstd::std_specs::convert::FromSpec<InstructionAccount>>::from_spec(
            account,
        ).is_signer == account.is_signer,
        <ProtoInstrAccount as vstd::std_specs::convert::FromSpec<InstructionAccount>>::from_spec(
            account,
        ).is_writable == account.is_writable,
        spec_instruction_account(proto).index_in_transaction == proto.index % 0x10000,
        spec_instruction_account(proto).is_signer == proto.is_signer,
        spec_instruction_account(proto).is_writable == proto.is_writable,
        spec_proto_instr_account(account).index == account.index_in_transaction,
        spec_proto_instr_account(account).is_signer == account.is_signer,
        spec_proto_instr_account(account).is_writable == account.is_writable,
{
}

/// The six bytes of one instruction account: the first four read back, in
/// little-endian order, as its index; the fifth is 1 exactly when it signs;
/// the sixth is 1 exactly when it is writable, whatever the other flag.
pub proof fn lemma_instr_account_bytes_layout(account: ProtoInstrAccount)
    ensures
        instr_account_bytes(account).len() == 6,
        vstd::bytes::spec_u32_from_le_bytes(instr_account_bytes(account).take(4)) == account.index,
        instr_account_bytes(account)[4] == 1 <==> account.is_signer,
        instr_account_bytes(account)[4] == 0 <==> !account.is_signer,
        instr_account_bytes(account)[5] == 1 <==> account.is_writable,
        instr_account_bytes(account)[5] == 0 <==> !account.is_writable,
{
    vstd::bytes::lemma_auto_spec_u32_to_from_le_bytes();
    let b = instr_account_bytes(account);
    let le = vstd::bytes::spec_u32_to_le_bytes(account.index);
    assert(b.take(4) =~= le);
}

/// The fingerprint bytes of a list of instruction accounts are the six bytes
/// of each account, one after the other: account `i` occupies the bytes from
/// `6 * i` to `6 * i + 6`.
pub proof fn lemma_instr_accounts_bytes_layout(accounts: Seq<ProtoInstrAccount>, i: int)
    requires
        0 <= i < accounts.len(),
    ensures
        instr_accounts_bytes(accounts).len() == 6 * accounts.len(),
        instr_accounts_bytes(accounts).subrange(6 * i, 6 * i + 6) == instr_account_bytes(accounts[i]),
    decreases accounts.len(),
{
    lemma_instr_accounts_bytes_len(accounts);
    let prefix = accounts.drop_last();
    lemma_instr_accounts_bytes_len(prefix);
    lemma_instr_account_bytes_layout(accounts.last());
    if i == accounts.len() - 1 {
        assert(instr_accounts_bytes(accounts).subrange(6 * i, 6 * i + 6) =~= instr_account_bytes(accounts[i]));
    } else {
        lemma_instr_accounts_bytes_layout(prefix, i);
        assert(instr_accounts_bytes(accounts).subrange(6 * i, 6 * i + 6) =~= instr_accounts_bytes(prefix).subrange(
            6 * i,
            6 * i + 6,
        ));
    }
}

} // verus!
