//! Transactions that move lamports from one account to another.
use solana_sdk::hash::Hash as WireHash;
use solana_sdk::instruction::AccountMeta as WireMeta;
use solana_sdk::instruction::CompiledInstruction as WireCall;
use solana_sdk::instruction::Instruction as WireInstruction;
use solana_sdk::message::Message as WireMessage;
use solana_sdk::pubkey::Pubkey as WireKey;
use solana_sdk::signer::keypair::Keypair as WireKeypair;
use solana_sdk::transaction::Transaction as WireTransaction;
use vstd::prelude::*;

use crate::service::keys::{is_curve_point, Pubkey};

verus! {

/// An account that an instruction names.
#[derive(Clone, Copy, Debug, PartialEq, Eq)]
pub struct AccountMeta {
    pub pubkey: Pubkey,
    pub is_signer: bool,
    pub is_writable: bool,
}

/// A call of an on-chain program.
#[derive(Debug, PartialEq, Eq)]
pub struct Instruction {
    pub program_id: Pubkey,
    pub accounts: Vec<AccountMeta>,
    pub data: Vec<u8>,
}

/// A call of an on-chain program that names accounts by their place in the
/// message's keys.
#[derive(Debug, PartialEq, Eq)]
pub struct CompiledInstruction {
    pub program_id_index: u8,
    pub accounts: Vec<u8>,
    pub data: Vec<u8>,
}

/// What a transaction asks for.
#[derive(Debug, PartialEq, Eq)]
pub struct Message {
    /// The leading keys, which have to sign.
    pub num_required_signatures: u8,
    /// How many of the signing keys, counted from their end, are only read.
    pub num_readonly_signed_accounts: u8,
    /// How many of the other keys, counted from their end, are only read.
    pub num_readonly_unsigned_accounts: u8,
    pub account_keys: Vec<Pubkey>,
    pub recent_blockhash: [u8; 32],
    pub instructions: Vec<CompiledInstruction>,
}

/// A message with the signatures of its leading keys.
#[derive(Debug, PartialEq, Eq)]
pub struct Transaction {
    pub signatures: Vec<[u8; 64]>,
    pub message: Message,
}

/// An [`AccountMeta`] by its contents.
pub struct MetaView {
    pub pubkey: Seq<u8>,
    pub is_signer: bool,
    pub is_writable: bool,
}

/// An [`Instruction`] by its contents.
pub struct InstructionView {
    pub program_id: Seq<u8>,
    pub accounts: Seq<MetaView>,
    pub data: Seq<u8>,
}

/// A [`CompiledInstruction`] by its contents.
pub struct CompiledView {
    pub program_id_index: u8,
    pub accounts: Seq<u8>,
    pub data: Seq<u8>,
}

/// A [`Message`] by its contents.
pub struct MessageView {
    pub num_required_signatures: u8,
    pub num_readonly_signed_accounts: u8,
    pub num_readonly_unsigned_accounts: u8,
    pub account_keys: Seq<Seq<u8>>,
    pub recent_blockhash: Seq<u8>,
    pub instructions: Seq<CompiledView>,
}

/// A [`Transaction`] by its contents.
pub struct TransactionView {
    pub signatures: Seq<Seq<u8>>,
    pub message: MessageView,
}

impl View for AccountMeta {
    type V = MetaView;

    open spec fn view(&self) -> MetaView {
        MetaView {
            pubkey: self.pubkey@,
            is_signer: self.is_signer,
            is_writable: self.is_writable,
        }
    }
}

impl View for Instruction {
    type V = InstructionView;

    open spec fn view(&self) -> InstructionView {
        InstructionView {
            program_id: self.program_id@,
            accounts: self.accounts@.map_values(|meta: AccountMeta| meta@),
            data: self.data@,
        }
    }
}

impl View for CompiledInstruction {
    type V = CompiledView;

    open spec fn view(&self) -> CompiledView {
        CompiledView {
            program_id_index: self.program_id_index,
            accounts: self.accounts@,
            data: self.data@,
        }
    }
}

impl View for Message {
    type V = MessageView;

    open spec fn view(&self) -> MessageView {
        MessageView {
            num_required_signatures: self.num_required_signatures,
            num_readonly_signed_accounts: self.num_readonly_signed_accounts,
            num_readonly_unsigned_accounts: self.num_readonly_unsigned_accounts,
            account_keys: self.account_keys@.map_values(|key: Pubkey| key@),
            recent_blockhash: self.recent_blockhash@,
            instructions: self.instructions@.map_values(|call: CompiledInstruction| call@),
        }
    }
}

impl View for Transaction {
    type V = TransactionView;

    open spec fn view(&self) -> TransactionView {
        TransactionView {
            signatures: self.signatures@.map_values(|signature: [u8; 64]| signature@),
            message: self.message@,
        }
    }
}

/// The address of the system program: 32 zero bytes.
pub open spec fn system_program() -> Seq<u8> {
    Seq::new(32, |i: int| 0u8)
}

/// The lowest `width` bytes of a number, the lowest first.
pub open spec fn little_endian(n: nat, width: nat) -> Seq<u8>
    decreases width,
{
    if width == 0 {
        Seq::empty()
    } else {
        seq![(n % 0x100) as u8] + little_endian(n / 0x100, (width - 1) as nat)
    }
}

/// What the system program reads as a transfer: the number 2 in four bytes,
/// then the amount in eight.
pub open spec fn transfer_data(lamports: u64) -> Seq<u8> {
    little_endian(2, 4) + little_endian(lamports as nat, 8)
}

/// The call of the system program that moves `lamports`: the sender signs, and
/// both accounts change.
pub open spec fn transfer_instruction(
    from: Seq<u8>,
    to: Seq<u8>,
    lamports: u64,
) -> InstructionView {
    InstructionView {
        program_id: system_program(),
        accounts: seq![
            MetaView { pubkey: from, is_signer: true, is_writable: true },
            MetaView { pubkey: to, is_signer: false, is_writable: true },
        ],
        data: transfer_data(lamports),
    }
}

/// The keys that a call of `program` names when `payer` pays and signs and `to`
/// is written: each once, in this order.
pub open spec fn named_keys(payer: Seq<u8>, to: Seq<u8>, program: Seq<u8>) -> Seq<Seq<u8>> {
    let accounts = if to == payer {
        seq![payer]
    } else {
        seq![payer, to]
    };
    if program == payer || program == to {
        accounts
    } else {
        accounts.push(program)
    }
}

/// The place of `key` among at most three keys that hold it.
pub open spec fn place_of(keys: Seq<Seq<u8>>, key: Seq<u8>) -> u8 {
    if keys[0] == key {
        0
    } else if keys[1] == key {
        1
    } else {
        2
    }
}

/// Whether the call names the payer, who signs it, and one more account, both
/// to be written.
pub open spec fn pays_from(call: InstructionView, payer: Seq<u8>) -> bool {
    &&& call.accounts.len() == 2
    &&& call.accounts[0] == (MetaView { pubkey: payer, is_signer: true, is_writable: true })
    &&& !call.accounts[1].is_signer
    &&& call.accounts[1].is_writable
}

/// The message of one call that [`pays_from`] `payer`: the payer is the only
/// signer, and the program is only read unless it is also one of the accounts.
/// The block hash is still zero.
pub open spec fn message_of(call: InstructionView, payer: Seq<u8>) -> MessageView {
    let to = call.accounts[1].pubkey;
    let keys = named_keys(payer, to, call.program_id);
    MessageView {
        num_required_signatures: 1,
        num_readonly_signed_accounts: 0,
        num_readonly_unsigned_accounts: if call.program_id == payer || call.program_id == to {
            0
        } else {
            1
        },
        account_keys: keys,
        recent_blockhash: Seq::new(32, |i: int| 0u8),
        instructions: seq![
            CompiledView {
                program_id_index: place_of(keys, call.program_id),
                accounts: seq![place_of(keys, payer), place_of(keys, to)],
                data: call.data,
            },
        ],
    }
}

/// The Ed25519 signature that `solana_sdk` makes of a message's wire form with a
/// key pair.
pub uninterp spec fn message_signature(keypair: Seq<u8>, message: MessageView) -> Seq<u8>;

/// `message`, whose only signer owns `keypair`, for this block hash and signed.
pub open spec fn signed(
    message: MessageView,
    keypair: Seq<u8>,
    blockhash: Seq<u8>,
) -> TransactionView {
    let dated = MessageView { recent_blockhash: blockhash, ..message };
    TransactionView { signatures: seq![message_signature(keypair, dated)], message: dated }
}

/// The signed transaction that moves `lamports` from the account of `keypair`
/// to `to`.
pub open spec fn transfer_transaction(
    keypair: Seq<u8>,
    to: Seq<u8>,
    lamports: u64,
    blockhash: Seq<u8>,
) -> TransactionView {
    let from = keypair.subrange(32, 64);
    signed(message_of(transfer_instruction(from, to, lamports), from), keypair, blockhash)
}

/// `solana_sdk`'s `system_instruction::transfer`.
#[verifier::external_body]
pub(crate) fn transfer(from: &Pubkey, to: &Pubkey, lamports: u64) -> (r: Instruction)
    ensures
        r@ == transfer_instruction(from@, to@, lamports),
{
    let call = solana_sdk::system_instruction::transfer(
        &WireKey::new_from_array(from.bytes),
        &WireKey::new_from_array(to.bytes),
        lamports,
    );
    let accounts = call.accounts.iter().map(|meta| AccountMeta {
        pubkey: Pubkey { bytes: meta.pubkey.to_bytes() },
        is_signer: meta.is_signer,
        is_writable: meta.is_writable,
    });
    Instruction {
        program_id: Pubkey { bytes: call.program_id.to_bytes() },
        accounts: accounts.collect(),
        data: call.data,
    }
}

/// The message of `solana_sdk`'s `Transaction::new_with_payer` for one call that
/// names the payer and one account more. It lists each key once, signers first
/// and keys that are only read last, and leaves the block hash zero.
#[verifier::external_body]
pub(crate) fn new_with_payer(call: Instruction, payer: &Pubkey) -> (r: Message)
    requires
        pays_from(call@, payer@),
    ensures
        r@ == message_of(call@, payer@),
{
    let message = WireTransaction::new_with_payer(&[WireInstruction {
        program_id: WireKey::new_from_array(call.program_id.bytes),
        accounts: call.accounts.iter().map(|m| WireMeta { is_signer: m.is_signer,
            is_writable: m.is_writable, pubkey: WireKey::new_from_array(m.pubkey.bytes) }).collect(),
        data: call.data
    }], Some(&WireKey::new_from_array(payer.bytes))).message;
    Message {
        num_required_signatures: message.header.num_required_signatures,
        num_readonly_signed_accounts: message.header.num_readonly_signed_accounts,
        num_readonly_unsigned_accounts: message.header.num_readonly_unsigned_accounts,
        account_keys: message.account_keys.iter().map(|k| Pubkey { bytes: k.to_bytes() }).collect(),
        recent_blockhash: message.recent_blockhash.to_bytes(),
        instructions: message.instructions.into_iter().map(|WireCall { program_id_index, accounts,
            data }| CompiledInstruction { program_id_index, accounts, data }).collect()
    }
}

/// `solana_sdk`'s `Transaction::sign` on the unsigned transaction of a message,
/// with the owner of the only key that has to sign: it sets the block hash and
/// signs. The signature itself is only named.
#[verifier::external_body]
pub(crate) fn sign(message: Message, keypair: &[u8; 64], blockhash: [u8; 32]) -> (r: Transaction)
    requires
        is_curve_point(keypair@.subrange(32, 64)),
        message@.num_required_signatures == 1,
        1 <= message@.account_keys.len() <= 3,
        message@.account_keys[0] == keypair@.subrange(32, 64),
        message@.instructions.len() == 1,
        message@.instructions[0].accounts.len() == 2,
        message@.instructions[0].data.len() == 12,
    ensures
        r@.message == (MessageView { recent_blockhash: blockhash@, ..message@ }),
        r@.signatures == seq![message_signature(keypair@, r@.message)],
{
    let mut wire = WireTransaction::new_unsigned(WireMessage::new_with_compiled_instructions(
        message.num_required_signatures,
        message.num_readonly_signed_accounts,
        message.num_readonly_unsigned_accounts,
        message.account_keys.iter().map(|k| WireKey::new_from_array(k.bytes)).collect(),
        WireHash::new_from_array(message.recent_blockhash),
        message.instructions.iter().map(|c| WireCall { program_id_index: c.program_id_index,
            accounts: c.accounts.clone(), data: c.data.clone() }).collect(),
    ));
    wire.sign(&[&WireKeypair::from_bytes(keypair).unwrap()], WireHash::new_from_array(blockhash));
    let recent_blockhash = wire.message.recent_blockhash.to_bytes();
    Transaction {
        signatures: wire.signatures.into_iter().map(<[u8; 64]>::from).collect(),
        message: Message { recent_blockhash, ..message },
    }
}

/// How many numbers fit in `width` bytes.
spec fn numbers_in(width: nat) -> nat
    decreases width,
{
    if width == 0 {
        1
    } else {
        0x100 * numbers_in((width - 1) as nat)
    }
}

/// Two numbers that fit in `width` bytes and have the same bytes are the same.
proof fn little_endian_injective(a: nat, b: nat, width: nat)
    requires
        a < numbers_in(width),
        b < numbers_in(width),
        little_endian(a, width) == little_endian(b, width),
    ensures
        a == b,
    decreases width,
{
    if width > 0 {
        let rest = (width - 1) as nat;
        let x = little_endian(a, width);
        let y = little_endian(b, width);
        assert(x[0] == y[0]);
        assert(x.drop_first() =~= little_endian(a / 0x100, rest));
        assert(y.drop_first() =~= little_endian(b / 0x100, rest));
        little_endian_injective(a / 0x100, b / 0x100, rest);
    }
}

/// Transfer data has one length, whatever the amount.
pub proof fn transfer_data_length(lamports: u64)
    ensures
        transfer_data(lamports).len() == 12,
{
    little_endian_width(2, 4);
    little_endian_width(lamports as nat, 8);
}

proof fn little_endian_width(n: nat, width: nat)
    ensures
        little_endian(n, width).len() == width,
    decreases width,
{
    if width > 0 {
        little_endian_width(n / 0x100, (width - 1) as nat);
    }
}

/// Two amounts with the same transfer data are the same amount.
pub proof fn transfer_data_injective(a: u64, b: u64)
    requires
        transfer_data(a) == transfer_data(b),
    ensures
        a == b,
{
    let x = transfer_data(a);
    let y = transfer_data(b);
    little_endian_width(2, 4);
    little_endian_width(a as nat, 8);
    little_endian_width(b as nat, 8);
    assert(little_endian(a as nat, 8) =~= x.subrange(4, 12));
    assert(little_endian(b as nat, 8) =~= y.subrange(4, 12));
    assert(numbers_in(8) == 0x1_0000_0000_0000_0000) by {
        reveal_with_fuel(numbers_in, 9);
    }
    little_endian_injective(a as nat, b as nat, 8);
}

/// The places in a transfer's message lead back to what it is about: the
/// sender pays and alone signs, the call goes to the system program, and it
/// names the sender first and the recipient second. No key is listed twice, and
/// none that is not of these; the message may change the sender's account and
/// the recipient's, and no other.
pub proof fn transfer_names_its_parties(
    keypair: Seq<u8>,
    to: Seq<u8>,
    lamports: u64,
    blockhash: Seq<u8>,
)
    ensures
        ({
            let tx = transfer_transaction(keypair, to, lamports, blockhash);
            let keys = tx.message.account_keys;
            let call = tx.message.instructions[0];
            let from = keypair.subrange(32, 64);
            &&& tx.signatures.len() == 1
            &&& tx.message.num_required_signatures == 1
            &&& tx.message.num_readonly_signed_accounts == 0
            &&& tx.message.recent_blockhash == blockhash
            &&& tx.message.instructions.len() == 1
            &&& keys[0] == from
            &&& keys.no_duplicates()
            &&& forall|i: int|
                0 <= i < keys.len() ==> #[trigger] keys[i] == from || keys[i] == to || keys[i]
                    == system_program()
            &&& forall|i: int|
                0 <= i < keys.len() ==> (i < keys.len() - tx.message.num_readonly_unsigned_accounts
                    <==> (#[trigger] keys[i] == from || keys[i] == to))
            &&& call.program_id_index < keys.len()
            &&& keys[call.program_id_index as int] == system_program()
            &&& call.accounts.len() == 2
            &&& call.accounts[0] < keys.len()
            &&& keys[call.accounts[0] as int] == from
            &&& call.accounts[1] < keys.len()
            &&& keys[call.accounts[1] as int] == to
            &&& call.data == transfer_data(lamports)
        }),
{
}

/// The only signature of a transfer is the sender's, over the very message that
/// the transaction carries, with its block hash.
pub proof fn transfer_is_signed_as_it_stands(
    keypair: Seq<u8>,
    to: Seq<u8>,
    lamports: u64,
    blockhash: Seq<u8>,
)
    ensures
        ({
            let tx = transfer_transaction(keypair, to, lamports, blockhash);
            &&& tx.signatures.len() == 1
            &&& tx.signatures[0] == message_signature(keypair, tx.message)
            &&& tx.message.recent_blockhash == blockhash
        }),
{
}

/// The number that bytes write, the lowest first.
pub open spec fn number_from(bytes: Seq<u8>) -> nat
    decreases bytes.len(),
{
    if bytes.len() == 0 {
        0
    } else {
        bytes[0] as nat + 0x100 * number_from(bytes.drop_first())
    }
}

/// The bytes of a number that fits in them read as that number.
proof fn little_endian_reads_back(n: nat, width: nat)
    requires
        n < numbers_in(width),
    ensures
        number_from(little_endian(n, width)) == n,
    decreases width,
{
    if width > 0 {
        let rest = little_endian(n / 0x100, (width - 1) as nat);
        little_endian_reads_back(n / 0x100, (width - 1) as nat);
        assert(little_endian(n, width).drop_first() =~= rest);
    }
}

/// Transfer data reads as the number of the transfer call and then as the amount
/// itself, whatever that is.
pub proof fn transfer_data_tells_the_amount(lamports: u64)
    ensures
        transfer_data(lamports).len() == 12,
        number_from(transfer_data(lamports).take(4)) == 2,
        number_from(transfer_data(lamports).skip(4)) == lamports,
{
    transfer_data_length(lamports);
    little_endian_width(2, 4);
    assert(transfer_data(lamports).take(4) =~= little_endian(2, 4));
    assert(transfer_data(lamports).skip(4) =~= little_endian(lamports as nat, 8));
    reveal_with_fuel(numbers_in, 9);
    little_endian_reads_back(2, 4);
    little_endian_reads_back(lamports as nat, 8);
}

/// A transfer moves exactly the amount that was asked for: its call's data read
/// as that amount.
pub proof fn transfer_moves_the_amount(
    keypair: Seq<u8>,
    to: Seq<u8>,
    lamports: u64,
    blockhash: Seq<u8>,
)
    ensures
        ({
            let data = transfer_transaction(
                keypair,
                to,
                lamports,
                blockhash,
            ).message.instructions[0].data;
            data.len() == 12 && number_from(data.take(4)) == 2 && number_from(data.skip(4))
                == lamports
        }),
{
    transfer_data_tells_the_amount(lamports);
}

/// Two transfers with the same message have the same sender, recipient, amount
/// and block hash.
pub proof fn transfer_tells_all(
    a: (Seq<u8>, Seq<u8>, u64, Seq<u8>),
    b: (Seq<u8>, Seq<u8>, u64, Seq<u8>),
)
    requires
        transfer_transaction(a.0, a.1, a.2, a.3).message == transfer_transaction(
            b.0,
            b.1,
            b.2,
            b.3,
        ).message,
    ensures
        a.0.subrange(32, 64) == b.0.subrange(32, 64),
        a.1 == b.1,
        a.2 == b.2,
        a.3 == b.3,
{
    transfer_names_its_parties(a.0, a.1, a.2, a.3);
    transfer_names_its_parties(b.0, b.1, b.2, b.3);
    transfer_moves_the_amount(a.0, a.1, a.2, a.3);
    transfer_moves_the_amount(b.0, b.1, b.2, b.3);
}

/// The system program's address is the zero key.
pub proof fn system_program_is_zero(i: int)
    requires
        0 <= i < system_program().len(),
    ensures
        system_program().len() == 32,
        system_program()[i] == 0,
{
}

/// The contents of a transaction are its signatures and its message as they
/// are, in their order.
pub proof fn transaction_contents(tx: Transaction)
    ensures
        tx@.signatures.len() == tx.signatures@.len(),
        forall|i: int|
            0 <= i < tx.signatures@.len() ==> (#[trigger] tx.signatures@[i])@ == tx@.signatures[i],
        tx@.message.num_required_signatures == tx.message.num_required_signatures,
        tx@.message.num_readonly_signed_accounts == tx.message.num_readonly_signed_accounts,
        tx@.message.num_readonly_unsigned_accounts == tx.message.num_readonly_unsigned_accounts,
        tx@.message.recent_blockhash == tx.message.recent_blockhash@,
        tx@.message.account_keys.len() == tx.message.account_keys@.len(),
        forall|i: int|
            0 <= i < tx.message.account_keys@.len() ==> (#[trigger] tx.message.account_keys@[i]).bytes@
                == tx@.message.account_keys[i],
        tx@.message.instructions.len() == tx.message.instructions@.len(),
        forall|i: int|
            0 <= i < tx.message.instructions@.len() ==> {
                let call = #[trigger] tx.message.instructions@[i];
                let contents = tx@.message.instructions[i];
                &&& contents.program_id_index == call.program_id_index
                &&& contents.accounts == call.accounts@
                &&& contents.data == call.data@
            },
{
}

} // verus!
