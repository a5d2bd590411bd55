//! The swap: the request that executes a quote, and what comes back, either
//! one transaction or the instructions that make it up.

use vstd::prelude::*;
use vstd::string::*;
use solana_sdk::pubkey::Pubkey;
use crate::address::{pubkey_text, pubkey_to_string};
use crate::decode::{
    FromJson, ToJson, decode_items, decode_optional, item_decoder, optional_decoded,
    optional_view_of, try_map, views,
};
use crate::json::{
    DecodeError, JsonTree, JsonValue, as_members, find_present, get_required_bool,
    get_required_integer, get_required_items, get_required_text, lemma_member_concat,
    lemma_view_parts, member, members_of, members_view, present, required_bool, required_integer,
    required_items, required_text,
};
use crate::price::field_as_string_option;
use crate::quote::{QuoteResponse, QuoteResponseView, quote_members};
use crate::text::{camel_case, camel_from};
use crate::transaction_config::{
    TransactionConfig, TransactionConfigView, config_members, lemma_config_members,
};

verus! {

/// The request that executes a quote.
#[derive(Debug, Clone)]
pub struct SwapRequest {
    /// The account that swaps.
    pub user_public_key: Pubkey,
    /// The quote to execute, as the service gave it.
    pub quote_response: QuoteResponse,
    /// How the transaction is to be built.
    pub config: TransactionConfig,
}

/// The model of a [`SwapRequest`].
pub struct SwapRequestView {
    pub user_public_key: Seq<char>,
    pub quote_response: QuoteResponseView,
    pub config: TransactionConfigView,
}

impl View for SwapRequest {
    type V = SwapRequestView;

    open spec fn view(&self) -> SwapRequestView {
        SwapRequestView {
            user_public_key: pubkey_text(self.user_public_key),
            quote_response: self.quote_response@,
            config: self.config@,
        }
    }
}

/// The two members that every swap request has, as they are written.
pub open spec fn swap_head(request: SwapRequestView) -> Seq<(Seq<char>, JsonTree)> {
    seq![
        ("userPublicKey"@, JsonTree::Text(request.user_public_key)),
        ("quoteResponse"@, JsonTree::Object(quote_members(request.quote_response))),
    ]
}

/// The members that are written for a swap request: the account, the quote,
/// then the refinements that are set, beside them.
pub open spec fn swap_members(request: SwapRequestView) -> Seq<(Seq<char>, JsonTree)> {
    swap_head(request) + config_members(request.config)
}

/// In the body of a swap request the account and the quote stand under their
/// names; a refinement that is set stands under its name, and one that is
/// unset has no member at all.
pub proof fn lemma_swap_members(request: SwapRequestView)
    ensures
        member(swap_members(request), "userPublicKey"@) == Some(
            JsonTree::Text(request.user_public_key),
        ),
        member(swap_members(request), "quoteResponse"@) == Some(
            JsonTree::Object(quote_members(request.quote_response)),
        ),
        member(swap_members(request), "wrapAndUnwrapSol"@) == (
        match request.config.wrap_and_unwrap_sol {
            Some(flag) => Some(JsonTree::Bool(flag)),
            None => None,
        }),
        member(swap_members(request), "feeAccount"@) == (match request.config.fee_account {
            Some(account) => Some(JsonTree::Text(account)),
            None => None,
        }),
        member(swap_members(request), "prioritizationFeeLamports"@)
            == field_as_string_option::encoded(request.config.prioritization_fee_lamports),
{
    reveal_strlit("userPublicKey");
    reveal_strlit("quoteResponse");
    reveal_strlit("wrapAndUnwrapSol");
    reveal_strlit("feeAccount");
    reveal_strlit("prioritizationFeeLamports");
    assert("userPublicKey"@.len() == 13 && "userPublicKey"@[0] == 'u');
    assert("quoteResponse"@.len() == 13 && "quoteResponse"@[0] == 'q');
    assert("wrapAndUnwrapSol"@.len() == 16);
    assert("feeAccount"@.len() == 10);
    assert("prioritizationFeeLamports"@.len() == 25);
    lemma_config_members(request.config);
    let head = swap_head(request);
    let rest = config_members(request.config);
    lemma_member_concat(head, rest, "userPublicKey"@);
    lemma_member_concat(head, rest, "quoteResponse"@);
    lemma_member_concat(head, rest, "wrapAndUnwrapSol"@);
    lemma_member_concat(head, rest, "feeAccount"@);
    lemma_member_concat(head, rest, "prioritizationFeeLamports"@);
    reveal_with_fuel(member, 3);
    let h1 = head.subrange(1, head.len() as int);
    assert(head[0].0 == "userPublicKey"@);
    assert(h1[0] == head[1]);
    assert(h1.subrange(1, h1.len() as int).len() == 0);
}

impl SwapRequest {
    /// A request for `user_public_key` to execute `quote_response`, with no refinement set.
    pub fn new(user_public_key: Pubkey, quote_response: QuoteResponse) -> (request: Self)
        ensures
            request@ == (SwapRequestView {
                user_public_key: pubkey_text(user_public_key),
                quote_response: quote_response@,
                config: TransactionConfigView {
                    wrap_and_unwrap_sol: None,
                    fee_account: None,
                    prioritization_fee_lamports: None,
                },
            }),
    {
        SwapRequest { user_public_key, quote_response, config: TransactionConfig::default() }
    }

    /// The same request, with `config` as its refinements.
    pub fn with_config(self, config: TransactionConfig) -> (request: Self)
        ensures
            request@ == (SwapRequestView { config: config@, ..self@ }),
    {
        let mut request = self;
        request.config = config;
        request
    }
}

impl ToJson for SwapRequest {
    open spec fn encoded(value: SwapRequestView) -> JsonTree {
        JsonTree::Object(swap_members(value))
    }

    fn to_json(&self) -> (doc: JsonValue) {
        let mut members: Vec<(String, JsonValue)> = Vec::new();
        members.push(
            ("userPublicKey".to_owned(), JsonValue::Text(pubkey_to_string(&self.user_public_key))),
        );
        members.push(("quoteResponse".to_owned(), self.quote_response.to_json()));
        assert(members_view(members@) =~= swap_head(self@));
        self.config.write_members(&mut members);
        let doc = JsonValue::Object(members);
        proof {
            lemma_view_parts(doc);
        }
        doc
    }
}

/// The transaction that executes a swap.
#[derive(Debug, Clone, PartialEq, Eq)]
pub struct SwapResponse {
    /// The transaction, in the text encoding in which the service sent it.
    pub swap_transaction: String,
    /// The last block height at which the transaction is valid.
    pub last_valid_block_height: u64,
}

/// The model of a [`SwapResponse`].
pub struct SwapResponseView {
    pub swap_transaction: Seq<char>,
    pub last_valid_block_height: u64,
}

impl View for SwapResponse {
    type V = SwapResponseView;

    open spec fn view(&self) -> SwapResponseView {
        SwapResponseView {
            swap_transaction: self.swap_transaction@,
            last_valid_block_height: self.last_valid_block_height,
        }
    }
}

impl FromJson for SwapResponse {
    open spec fn decoded(doc: JsonTree) -> Result<SwapResponseView, DecodeError> {
        match members_of(doc) {
            Err(e) => Err(e),
            Ok(members) => match required_text(members, "swapTransaction"@) {
                Err(e) => Err(e),
                Ok(swap_transaction) => match required_integer(members, "lastValidBlockHeight"@) {
                    Err(e) => Err(e),
                    Ok(last_valid_block_height) => Ok(
                        SwapResponseView { swap_transaction, last_valid_block_height },
                    ),
                },
            },
        }
    }

    fn from_json(doc: &JsonValue) -> (r: Result<Self, DecodeError>) {
        let members = as_members(doc)?;
        let swap_transaction = get_required_text(members, "swapTransaction")?;
        let last_valid_block_height = get_required_integer(members, "lastValidBlockHeight")?;
        Ok(SwapResponse { swap_transaction, last_valid_block_height })
    }
}

/// One account of an instruction, as the wire holds it: three members side by side.
#[derive(Debug, Clone, PartialEq, Eq)]
pub struct AccountMetaInternal {
    pub pubkey: String,
    pub is_signer: bool,
    pub is_writable: bool,
}

/// The model of an [`AccountMetaInternal`].
pub struct AccountMetaInternalView {
    pub pubkey: Seq<char>,
    pub is_signer: bool,
    pub is_writable: bool,
}

impl View for AccountMetaInternal {
    type V = AccountMetaInternalView;

    open spec fn view(&self) -> AccountMetaInternalView {
        AccountMetaInternalView {
            pubkey: self.pubkey@,
            is_signer: self.is_signer,
            is_writable: self.is_writable,
        }
    }
}

impl FromJson for AccountMetaInternal {
    open spec fn decoded(doc: JsonTree) -> Result<AccountMetaInternalView, DecodeError> {
        match members_of(doc) {
            Err(e) => Err(e),
            Ok(members) => match required_text(members, "pubkey"@) {
                Err(e) => Err(e),
                Ok(pubkey) => match required_bool(members, "isSigner"@) {
                    Err(e) => Err(e),
                    Ok(is_signer) => match required_bool(members, "isWritable"@) {
                        Err(e) => Err(e),
                        Ok(is_writable) => Ok(
                            AccountMetaInternalView { pubkey, is_signer, is_writable },
                        ),
                    },
                },
            },
        }
    }

    fn from_json(doc: &JsonValue) -> (r: Result<Self, DecodeError>) {
        let members = as_members(doc)?;
        let pubkey = get_required_text(members, "pubkey")?;
        let is_signer = get_required_bool(members, "isSigner")?;
        let is_writable = get_required_bool(members, "isWritable")?;
        Ok(AccountMetaInternal { pubkey, is_signer, is_writable })
    }
}

/// One instruction, as the wire holds it.
#[derive(Debug, Clone, PartialEq, Eq)]
pub struct InstructionInternal {
    pub program_id: String,
    pub accounts: Vec<AccountMetaInternal>,
    pub data: String,
}

/// The model of an [`InstructionInternal`].
pub struct InstructionInternalView {
    pub program_id: Seq<char>,
    pub accounts: Seq<AccountMetaInternalView>,
    pub data: Seq<char>,
}

impl View for InstructionInternal {
    type V = InstructionInternalView;

    open spec fn view(&self) -> InstructionInternalView {
        InstructionInternalView {
            program_id: self.program_id@,
            accounts: views(self.accounts@),
            data: self.data@,
        }
    }
}

impl FromJson for InstructionInternal {
    open spec fn decoded(doc: JsonTree) -> Result<InstructionInternalView, DecodeError> {
        match members_of(doc) {
            Err(e) => Err(e),
            Ok(members) => match required_text(members, "programId"@) {
                Err(e) => Err(e),
                Ok(program_id) => match required_items(members, "accounts"@) {
                    Err(e) => Err(e),
                    Ok(items) => match try_map(items, item_decoder::<AccountMetaInternal>()) {
                        Err(e) => Err(e),
                        Ok(accounts) => match required_text(members, "data"@) {
                            Err(e) => Err(e),
                            Ok(data) => Ok(InstructionInternalView { program_id, accounts, data }),
                        },
                    },
                },
            },
        }
    }

    fn from_json(doc: &JsonValue) -> (r: Result<Self, DecodeError>) {
        let members = as_members(doc)?;
        let program_id = get_required_text(members, "programId")?;
        let items = get_required_items(members, "accounts")?;
        let accounts = decode_items::<AccountMetaInternal>(items)?;
        let data = get_required_text(members, "data")?;
        Ok(InstructionInternal { program_id, accounts, data })
    }
}

/// The instructions of a swap, as the wire holds them.
#[derive(Debug, Clone, PartialEq, Eq)]
pub struct SwapInstructionsResponseInternal {
    pub setup_instructions: Vec<InstructionInternal>,
    pub swap_instruction: InstructionInternal,
    pub cleanup_instruction: Option<InstructionInternal>,
    pub address_lookup_table_addresses: Vec<String>,
}

/// The model of a [`SwapInstructionsResponseInternal`].
pub struct SwapInstructionsResponseInternalView {
    pub setup_instructions: Seq<InstructionInternalView>,
    pub swap_instruction: InstructionInternalView,
    pub cleanup_instruction: Option<InstructionInternalView>,
    pub address_lookup_table_addresses: Seq<Seq<char>>,
}

impl View for SwapInstructionsResponseInternal {
    type V = SwapInstructionsResponseInternalView;

    open spec fn view(&self) -> SwapInstructionsResponseInternalView {
        SwapInstructionsResponseInternalView {
            setup_instructions: views(self.setup_instructions@),
            swap_instruction: self.swap_instruction@,
            cleanup_instruction: optional_view_of(self.cleanup_instruction),
            address_lookup_table_addresses: views(self.address_lookup_table_addresses@),
        }
    }
}

/// What an object with the members `members` holds, read as the instructions of a swap.
pub open spec fn instructions_of(members: Seq<(Seq<char>, JsonTree)>) -> Result<
    SwapInstructionsResponseInternalView,
    DecodeError,
> {
    match required_items(members, "setupInstructions"@) {
        Err(e) => Err(e),
        Ok(setup_items) => match try_map(setup_items, item_decoder::<InstructionInternal>()) {
            Err(e) => Err(e),
            Ok(setup_instructions) => match member(members, "swapInstruction"@) {
                None => Err(DecodeError::MissingField),
                Some(swap_doc) => match InstructionInternal::decoded(swap_doc) {
                    Err(e) => Err(e),
                    Ok(swap_instruction) => match optional_decoded::<InstructionInternal>(
                        present(members, "cleanupInstruction"@),
                    ) {
                        Err(e) => Err(e),
                        Ok(cleanup_instruction) => match required_items(
                            members,
                            "addressLookupTableAddresses"@,
                        ) {
                            Err(e) => Err(e),
                            Ok(address_items) => match try_map(
                                address_items,
                                item_decoder::<String>(),
                            ) {
                                Err(e) => Err(e),
                                Ok(address_lookup_table_addresses) => Ok(
                                    SwapInstructionsResponseInternalView {
                                        setup_instructions,
                                        swap_instruction,
                                        cleanup_instruction,
                                        address_lookup_table_addresses,
                                    },
                                ),
                            },
                        },
                    },
                },
            },
        },
    }
}

impl FromJson for SwapInstructionsResponseInternal {
    open spec fn decoded(doc: JsonTree) -> Result<
        SwapInstructionsResponseInternalView,
        DecodeError,
    > {
        match members_of(doc) {
            Err(e) => Err(e),
            Ok(members) => instructions_of(members),
        }
    }

    fn from_json(doc: &JsonValue) -> (r: Result<Self, DecodeError>) {
        let members = as_members(doc)?;
        let setup_items = get_required_items(members, "setupInstructions")?;
        let setup_instructions = decode_items::<InstructionInternal>(setup_items)?;
        let swap_instruction = match crate::json::find(members, "swapInstruction") {
            None => {
                return Err(DecodeError::MissingField);
            },
            Some(swap_doc) => InstructionInternal::from_json(swap_doc)?,
        };
        let cleanup_instruction = decode_optional::<InstructionInternal>(
            find_present(members, "cleanupInstruction"),
        )?;
        let address_items = get_required_items(members, "addressLookupTableAddresses")?;
        let address_lookup_table_addresses = decode_items::<String>(address_items)?;
        Ok(
            SwapInstructionsResponseInternal {
                setup_instructions,
                swap_instruction,
                cleanup_instruction,
                address_lookup_table_addresses,
            },
        )
    }
}

/// What an account is allowed in an instruction.
#[derive(Debug, Clone, Copy, PartialEq, Eq, Structural)]
pub struct AccountAccess {
    /// The account signs the transaction.
    pub is_signer: bool,
    /// The instruction may change the account.
    pub is_writable: bool,
}

/// One account of an instruction: its address, and what it is allowed.
#[derive(Debug, Clone, PartialEq, Eq)]
pub struct AccountMeta {
    pub pubkey: String,
    pub access: AccountAccess,
}

/// The model of an [`AccountMeta`].
pub struct AccountMetaView {
    pub pubkey: Seq<char>,
    pub access: AccountAccess,
}

impl View for AccountMeta {
    type V = AccountMetaView;

    open spec fn view(&self) -> AccountMetaView {
        AccountMetaView { pubkey: self.pubkey@, access: self.access }
    }
}

/// One instruction: the program to call, the accounts in the order in which
/// the program takes them, and the data, in the text encoding of the wire.
#[derive(Debug, Clone, PartialEq, Eq)]
pub struct Instruction {
    pub program_id: String,
    pub accounts: Vec<AccountMeta>,
    pub data: String,
}

/// The model of an [`Instruction`].
pub struct InstructionView {
    pub program_id: Seq<char>,
    pub accounts: Seq<AccountMetaView>,
    pub data: Seq<char>,
}

impl View for Instruction {
    type V = InstructionView;

    open spec fn view(&self) -> InstructionView {
        InstructionView {
            program_id: self.program_id@,
            accounts: views(self.accounts@),
            data: self.data@,
        }
    }
}

/// The instructions that make up a swap.
#[derive(Debug, Clone, PartialEq, Eq)]
pub struct SwapInstructionsResponse {
    /// The instructions that prepare the swap, in order.
    pub setup_instructions: Vec<Instruction>,
    /// The swap itself.
    pub swap_instruction: Instruction,
    /// The instruction that cleans up after the swap, where there is one.
    pub cleanup_instruction: Option<Instruction>,
    /// The addresses of the lookup tables that the transaction uses.
    pub address_lookup_table_addresses: Vec<String>,
}

/// The model of a [`SwapInstructionsResponse`].
pub struct SwapInstructionsResponseView {
    pub setup_instructions: Seq<InstructionView>,
    pub swap_instruction: InstructionView,
    pub cleanup_instruction: Option<InstructionView>,
    pub address_lookup_table_addresses: Seq<Seq<char>>,
}

impl View for SwapInstructionsResponse {
    type V = SwapInstructionsResponseView;

    open spec fn view(&self) -> SwapInstructionsResponseView {
        SwapInstructionsResponseView {
            setup_instructions: views(self.setup_instructions@),
            swap_instruction: self.swap_instruction@,
            cleanup_instruction: optional_view_of(self.cleanup_instruction),
            address_lookup_table_addresses: views(self.address_lookup_table_addresses@),
        }
    }
}

/// An account in the public shape: the same address, with the two flags as its access.
pub open spec fn normal_account(account: AccountMetaInternalView) -> AccountMetaView {
    AccountMetaView {
        pubkey: account.pubkey,
        access: AccountAccess { is_signer: account.is_signer, is_writable: account.is_writable },
    }
}

/// An instruction in the public shape: the same program and data, and every
/// account, in the same order, in the public shape.
pub open spec fn normal_instruction(instruction: InstructionInternalView) -> InstructionView {
    InstructionView {
        program_id: instruction.program_id,
        accounts: Seq::new(
            instruction.accounts.len(),
            |i: int| normal_account(instruction.accounts[i]),
        ),
        data: instruction.data,
    }
}

/// The instructions of a swap in the public shape: every instruction, in
/// the same place and order, in the public shape, and the same addresses.
pub open spec fn normal_instructions(
    internal: SwapInstructionsResponseInternalView,
) -> SwapInstructionsResponseView {
    SwapInstructionsResponseView {
        setup_instructions: Seq::new(
            internal.setup_instructions.len(),
            |i: int| normal_instruction(internal.setup_instructions[i]),
        ),
        swap_instruction: normal_instruction(internal.swap_instruction),
        cleanup_instruction: match internal.cleanup_instruction {
            Some(instruction) => Some(normal_instruction(instruction)),
            None => None,
        },
        address_lookup_table_addresses: internal.address_lookup_table_addresses,
    }
}

impl AccountMeta {
    /// The account in the public shape.
    pub fn from_internal(account: &AccountMetaInternal) -> (meta: Self)
        ensures
            meta@ == normal_account(account@),
    {
        AccountMeta {
            pubkey: account.pubkey.clone(),
            access: AccountAccess {
                is_signer: account.is_signer,
                is_writable: account.is_writable,
            },
        }
    }
}

impl Instruction {
    /// The instruction in the public shape.
    pub fn from_internal(instruction: &InstructionInternal) -> (out: Self)
        ensures
            out@ == normal_instruction(instruction@),
    {
        let mut accounts: Vec<AccountMeta> = Vec::new();
        let mut i: usize = 0;
        while i < instruction.accounts.len()
            invariant
                i <= instruction.accounts.len(),
                accounts@.len() == i,
                forall|j: int|
                    0 <= j < i ==> (#[trigger] accounts@[j])@ == normal_account(
                        instruction.accounts@[j]@,
                    ),
            decreases instruction.accounts.len() - i,
        {
            accounts.push(AccountMeta::from_internal(&instruction.accounts[i]));
            i = i + 1;
        }
        let out = Instruction {
            program_id: instruction.program_id.clone(),
            accounts,
            data: instruction.data.clone(),
        };
        assert(out@.accounts =~= normal_instruction(instruction@).accounts);
        out
    }
}

/// The instructions `wire` in the public shape, in the same order.
pub fn normalize_instructions(wire: &Vec<InstructionInternal>) -> (out: Vec<Instruction>)
    ensures
        views(out@) == Seq::new(wire@.len(), |i: int| normal_instruction(views(wire@)[i])),
{
    let mut out: Vec<Instruction> = Vec::new();
    let mut i: usize = 0;
    while i < wire.len()
        invariant
            i <= wire.len(),
            out@.len() == i,
            forall|j: int|
                0 <= j < i ==> (#[trigger] out@[j])@ == normal_instruction(wire@[j]@),
        decreases wire.len() - i,
    {
        out.push(Instruction::from_internal(&wire[i]));
        i = i + 1;
    }
    assert(views(out@) =~= Seq::new(wire@.len(), |i: int| normal_instruction(views(wire@)[i])));
    out
}

impl SwapInstructionsResponse {
    /// The instructions of a swap in the public shape.
    pub fn from_internal(internal: SwapInstructionsResponseInternal) -> (out: Self)
        ensures
            out@ == normal_instructions(internal@),
    {
        let setup_instructions = normalize_instructions(&internal.setup_instructions);
        let swap_instruction = Instruction::from_internal(&internal.swap_instruction);
        let cleanup_instruction = match &internal.cleanup_instruction {
            Some(instruction) => Some(Instruction::from_internal(instruction)),
            None => None,
        };
        let out = SwapInstructionsResponse {
            setup_instructions,
            swap_instruction,
            cleanup_instruction,
            address_lookup_table_addresses: internal.address_lookup_table_addresses,
        };
        assert(out@.setup_instructions =~= normal_instructions(internal@).setup_instructions);
        out
    }
}

/// The transaction of a swap is read only from an object that holds
/// `swapTransaction` as text and `lastValidBlockHeight` as an integer.
pub proof fn lemma_swap_response_complete(doc: JsonTree)
    requires
        SwapResponse::decoded(doc) is Ok,
    ensures
        doc is Object,
        member(doc->Object_0, "swapTransaction"@) == Some(
            JsonTree::Text(SwapResponse::decoded(doc)->Ok_0.swap_transaction),
        ),
        required_integer(doc->Object_0, "lastValidBlockHeight"@) == Ok::<u64, DecodeError>(
            SwapResponse::decoded(doc)->Ok_0.last_valid_block_height,
        ),
{
}

/// The members of a swap request and of what comes back bear on the wire the names of
/// their fields in lower camel case.
pub proof fn lemma_swap_wire_names()
    ensures
        camel_case("user_public_key"@) == "userPublicKey"@,
        camel_case("quote_response"@) == "quoteResponse"@,
        camel_case("swap_transaction"@) == "swapTransaction"@,
        camel_case("last_valid_block_height"@) == "lastValidBlockHeight"@,
        camel_case("pubkey"@) == "pubkey"@,
        camel_case("is_signer"@) == "isSigner"@,
        camel_case("is_writable"@) == "isWritable"@,
        camel_case("program_id"@) == "programId"@,
        camel_case("accounts"@) == "accounts"@,
        camel_case("data"@) == "data"@,
        camel_case("setup_instructions"@) == "setupInstructions"@,
        camel_case("swap_instruction"@) == "swapInstruction"@,
        camel_case("cleanup_instruction"@) == "cleanupInstruction"@,
        camel_case("address_lookup_table_addresses"@) == "addressLookupTableAddresses"@,
{
    reveal_strlit("user_public_key");
    reveal_strlit("userPublicKey");
    reveal_strlit("quote_response");
    reveal_strlit("quoteResponse");
    reveal_strlit("swap_transaction");
    reveal_strlit("swapTransaction");
    reveal_strlit("last_valid_block_height");
    reveal_strlit("lastValidBlockHeight");
    reveal_strlit("pubkey");
    reveal_strlit("is_signer");
    reveal_strlit("isSigner");
    reveal_strlit("is_writable");
    reveal_strlit("isWritable");
    reveal_strlit("program_id");
    reveal_strlit("programId");
    reveal_strlit("accounts");
    reveal_strlit("data");
    reveal_strlit("setup_instructions");
    reveal_strlit("setupInstructions");
    reveal_strlit("swap_instruction");
    reveal_strlit("swapInstruction");
    reveal_strlit("cleanup_instruction");
    reveal_strlit("cleanupInstruction");
    reveal_strlit("address_lookup_table_addresses");
    reveal_strlit("addressLookupTableAddresses");
    reveal_with_fuel(camel_from, 32);
    assert(camel_case("user_public_key"@) =~= "userPublicKey"@);
    assert(camel_case("quote_response"@) =~= "quoteResponse"@);
    assert(camel_case("swap_transaction"@) =~= "swapTransaction"@);
    assert(camel_case("last_valid_block_height"@) =~= "lastValidBlockHeight"@);
    assert(camel_case("pubkey"@) =~= "pubkey"@);
    assert(camel_case("is_signer"@) =~= "isSigner"@);
    assert(camel_case("is_writable"@) =~= "isWritable"@);
    assert(camel_case("program_id"@) =~= "programId"@);
    assert(camel_case("accounts"@) =~= "accounts"@);
    assert(camel_case("data"@) =~= "data"@);
    assert(camel_case("setup_instructions"@) =~= "setupInstructions"@);
    assert(camel_case("swap_instruction"@) =~= "swapInstruction"@);
    assert(camel_case("cleanup_instruction"@) =~= "cleanupInstruction"@);
    assert(camel_case("address_lookup_table_addresses"@) =~= "addressLookupTableAddresses"@);
}

} // verus!
