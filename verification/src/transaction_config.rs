//! How the transaction of a swap is to be built: refinements that are all
//! optional, and of which only those that are set are written.

use vstd::prelude::*;
use vstd::string::*;
use solana_sdk::pubkey::Pubkey;
use crate::address::{pubkey_text, pubkey_to_string};
use crate::json::{JsonTree, JsonValue, member, members_view};
use crate::price::field_as_string_option;
use crate::text::{camel_case, camel_from};

verus! {

/// The refinements of a swap's transaction.
#[derive(Debug, Clone)]
pub struct TransactionConfig {
    /// Whether native tokens are wrapped before the swap and unwrapped after it.
    pub wrap_and_unwrap_sol: Option<bool>,
    /// The account that collects the platform's fee.
    pub fee_account: Option<Pubkey>,
    /// The priority fee to pay, in the smallest unit; it is written as text.
    pub prioritization_fee_lamports: Option<u64>,
}

/// The model of a [`TransactionConfig`].
pub struct TransactionConfigView {
    pub wrap_and_unwrap_sol: Option<bool>,
    pub fee_account: Option<Seq<char>>,
    pub prioritization_fee_lamports: Option<u64>,
}

impl View for TransactionConfig {
    type V = TransactionConfigView;

    open spec fn view(&self) -> TransactionConfigView {
        TransactionConfigView {
            wrap_and_unwrap_sol: self.wrap_and_unwrap_sol,
            fee_account: match self.fee_account {
                Some(key) => Some(pubkey_text(key)),
                None => None,
            },
            prioritization_fee_lamports: self.prioritization_fee_lamports,
        }
    }
}

/// The members that are written for the refinements: one for each that is
/// set, in the order of the fields, and none for one that is unset.
pub open spec fn config_members(config: TransactionConfigView) -> Seq<(Seq<char>, JsonTree)> {
    (match config.wrap_and_unwrap_sol {
        Some(flag) => seq![("wrapAndUnwrapSol"@, JsonTree::Bool(flag))],
        None => seq![],
    }) + (match config.fee_account {
        Some(account) => seq![("feeAccount"@, JsonTree::Text(account))],
        None => seq![],
    }) + (match field_as_string_option::encoded(config.prioritization_fee_lamports) {
        Some(text) => seq![("prioritizationFeeLamports"@, text)],
        None => seq![],
    })
}

/// The names of the refinements differ from one another.
pub proof fn lemma_config_keys_differ()
    ensures
        "wrapAndUnwrapSol"@ != "feeAccount"@,
        "wrapAndUnwrapSol"@ != "prioritizationFeeLamports"@,
        "feeAccount"@ != "prioritizationFeeLamports"@,
{
    reveal_strlit("wrapAndUnwrapSol");
    reveal_strlit("feeAccount");
    reveal_strlit("prioritizationFeeLamports");
    assert("wrapAndUnwrapSol"@.len() == 16);
    assert("feeAccount"@.len() == 10);
    assert("prioritizationFeeLamports"@.len() == 25);
}

/// A refinement that is unset has no member in what is written; one that is
/// set has its value there.
pub proof fn lemma_config_members(config: TransactionConfigView)
    ensures
        member(config_members(config), "wrapAndUnwrapSol"@) == (match config.wrap_and_unwrap_sol {
            Some(flag) => Some(JsonTree::Bool(flag)),
            None => None,
        }),
        member(config_members(config), "feeAccount"@) == (match config.fee_account {
            Some(account) => Some(JsonTree::Text(account)),
            None => None,
        }),
        member(config_members(config), "prioritizationFeeLamports"@)
            == field_as_string_option::encoded(config.prioritization_fee_lamports),
{
    lemma_config_keys_differ();
    let m = config_members(config);
    reveal_with_fuel(member, 4);
    if m.len() > 0 {
        let m1 = m.subrange(1, m.len() as int);
        if m1.len() > 0 {
            assert(m1[0] == m[1]);
            let m2 = m1.subrange(1, m1.len() as int);
            if m2.len() > 0 {
                assert(m2[0] == m[2]);
                assert(m2.subrange(1, m2.len() as int).len() == 0);
            }
        }
    }
}

impl Default for TransactionConfig {
    /// No refinement is set.
    fn default() -> (config: Self)
        ensures
            config@ == (TransactionConfigView {
                wrap_and_unwrap_sol: None,
                fee_account: None,
                prioritization_fee_lamports: None,
            }),
    {
        TransactionConfig {
            wrap_and_unwrap_sol: None,
            fee_account: None,
            prioritization_fee_lamports: None,
        }
    }
}

impl TransactionConfig {
    /// The same refinements, with the wrapping of native tokens set.
    pub fn with_wrap_and_unwrap_sol(self, wrap_and_unwrap_sol: bool) -> (config: Self)
        ensures
            config@ == (TransactionConfigView {
                wrap_and_unwrap_sol: Some(wrap_and_unwrap_sol),
                ..self@
            }),
    {
        let mut config = self;
        config.wrap_and_unwrap_sol = Some(wrap_and_unwrap_sol);
        config
    }

    /// The same refinements, with the fee account set.
    pub fn with_fee_account(self, fee_account: Pubkey) -> (config: Self)
        ensures
            config@ == (TransactionConfigView {
                fee_account: Some(pubkey_text(fee_account)),
                ..self@
            }),
    {
        let mut config = self;
        config.fee_account = Some(fee_account);
        config
    }

    /// The same refinements, with the priority fee set.
    pub fn with_prioritization_fee_lamports(self, lamports: u64) -> (config: Self)
        ensures
            config@ == (TransactionConfigView {
                prioritization_fee_lamports: Some(lamports),
                ..self@
            }),
    {
        let mut config = self;
        config.prioritization_fee_lamports = Some(lamports);
        config
    }

    /// Writes the members of the refinements that are set after those that
    /// `members` holds already.
    pub fn write_members(&self, members: &mut Vec<(String, JsonValue)>)
        ensures
            members_view(final(members)@) == members_view(old(members)@) + config_members(self@),
    {
        let ghost start = members_view(members@);
        match self.wrap_and_unwrap_sol {
            Some(flag) => {
                members.push(("wrapAndUnwrapSol".to_owned(), JsonValue::Bool(flag)));
            },
            None => {},
        }
        match &self.fee_account {
            Some(account) => {
                members.push(("feeAccount".to_owned(), JsonValue::Text(pubkey_to_string(account))));
            },
            None => {},
        }
        match field_as_string_option::serialize(&self.prioritization_fee_lamports) {
            Some(text) => {
                members.push(("prioritizationFeeLamports".to_owned(), text));
            },
            None => {},
        }
        assert(members_view(members@) =~= start + config_members(self@));
    }
}

/// The members of the refinements bear on the wire the names of their fields in lower camel case.
pub proof fn lemma_config_wire_names()
    ensures
        camel_case("wrap_and_unwrap_sol"@) == "wrapAndUnwrapSol"@,
        camel_case("fee_account"@) == "feeAccount"@,
        camel_case("prioritization_fee_lamports"@) == "prioritizationFeeLamports"@,
{
    reveal_strlit("wrap_and_unwrap_sol");
    reveal_strlit("wrapAndUnwrapSol");
    reveal_strlit("fee_account");
    reveal_strlit("feeAccount");
    reveal_strlit("prioritization_fee_lamports");
    reveal_strlit("prioritizationFeeLamports");
    reveal_with_fuel(camel_from, 32);
    assert(camel_case("wrap_and_unwrap_sol"@) =~= "wrapAndUnwrapSol"@);
    assert(camel_case("fee_account"@) =~= "feeAccount"@);
    assert(camel_case("prioritization_fee_lamports"@) =~= "prioritizationFeeLamports"@);
}

} // verus!
