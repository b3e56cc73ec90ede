use vstd::prelude::*;
use crate::decimal::bool_str;
use crate::decimal::bool_to_dec;
use crate::decimal::dec_str;
use crate::decimal::u64_to_dec;

verus! {

/// A token's domain identifier: either a dense numeric index or a
/// content-derived hash, depending on the collection's identifier mode.
/// It is immutable once assigned and formats to a stable string that
/// serves as a storage key and as an event field.
#[derive(Clone, Debug, PartialEq, Eq)]
pub enum TokenIdentifier {
    Index(u64),
    Hash(String),
}

/// Whether two token identifiers name the same token: same variant and
/// same underlying value.
pub open spec fn token_id_eq(a: TokenIdentifier, b: TokenIdentifier) -> bool {
    match (a, b) {
        (TokenIdentifier::Index(i), TokenIdentifier::Index(j)) => i == j,
        (TokenIdentifier::Hash(x), TokenIdentifier::Hash(y)) => x@ == y@,
        _ => false,
    }
}

/// The stable string form of a token identifier: the raw index in
/// decimal, or the raw hash string, with no tag.
pub open spec fn token_key_spec(t: TokenIdentifier) -> Seq<char> {
    match t {
        TokenIdentifier::Index(i) => dec_str(i as nat),
        TokenIdentifier::Hash(h) => h@,
    }
}

impl TokenIdentifier {
    /// Decides whether `self` and `other` name the same token.
    pub fn same_token(&self, other: &TokenIdentifier) -> (r: bool)
        ensures
            r == token_id_eq(*self, *other),
    {
        match (self, other) {
            (TokenIdentifier::Index(i), TokenIdentifier::Index(j)) => *i == *j,
            (TokenIdentifier::Hash(x), TokenIdentifier::Hash(y)) => x.eq(y),
            _ => false,
        }
    }

    /// A copy of this identifier naming the same token.
    pub fn duplicate(&self) -> (r: TokenIdentifier)
        ensures
            token_id_eq(r, *self),
    {
        match self {
            TokenIdentifier::Index(i) => TokenIdentifier::Index(*i),
            TokenIdentifier::Hash(h) => TokenIdentifier::Hash(String::from_str(h.as_str())),
        }
    }

    /// The stable string form, used as a storage key and as the wire
    /// value of every `token_id` event field.
    pub fn key_string(&self) -> (r: String)
        ensures
            r@ == token_key_spec(*self),
    {
        match self {
            TokenIdentifier::Index(i) => u64_to_dec(*i),
            TokenIdentifier::Hash(h) => String::from_str(h.as_str()),
        }
    }
}

/// Every token identifier names itself.
pub proof fn lemma_token_id_eq_refl(t: TokenIdentifier)
    ensures
        token_id_eq(t, t),
{
    match t {
        TokenIdentifier::Index(i) => {
        },
        TokenIdentifier::Hash(h) => {
        },
    }
}

/// One observable state transition of the contract. Address-like fields
/// (account or contract keys) are carried in their formatted string form;
/// the whitelist carries each contract hash's formatted form. An event is
/// immutable once constructed: it is a fact record, not mutable state.
#[derive(Clone, Debug, PartialEq, Eq)]
pub enum CEP78Event {
    Init {
        collection_name: String,
        collection_symbol: String,
        total_token_supply: u64,
        allow_minting: bool,
        minting_mode: u8,
        ownership_mode: u8,
        nft_kind: u8,
        holder_mode: u8,
        whitelist_mode: u8,
        contract_whitelist: Vec<String>,
        json_schema: String,
        nft_metadata_kind: u8,
        identifier_mode: u8,
        metadata_mutability: u8,
        burn_mode: u8,
        reporting_mode: u8,
    },
    SetVariables { allow_minting: bool, contract_whitelist: Vec<String> },
    Approve { owner: String, spender: String, token_id: TokenIdentifier },
    Transfer {
        from: String,
        to: String,
        token_id: TokenIdentifier,
        from_balance: u64,
        to_balance: u64,
    },
    Mint { to: String, token_id: TokenIdentifier, balance: u64 },
    Burn { from: String, token_id: TokenIdentifier, balance: u64 },
    UpdateMetadata { token_id: TokenIdentifier, updated_token_metadata: String },
    SetCollectionRoyalty { royalty: u16, recipient: String },
    SetTokenRoyalty { token_id: TokenIdentifier, royalty: u16, recipient: String },
}

/// The views of a list of strings.
pub open spec fn strings_view(v: Seq<String>) -> Seq<Seq<char>> {
    Seq::new(v.len(), |i: int| v[i]@)
}

/// The elements joined with a comma and a space.
pub open spec fn join_comma(items: Seq<Seq<char>>) -> Seq<char>
    decreases items.len(),
{
    if items.len() == 0 {
        Seq::empty()
    } else if items.len() == 1 {
        items[0]
    } else {
        join_comma(items.drop_last()) + ", "@ + items.last()
    }
}

/// The wire form of a list field: the elements joined with a comma and a
/// space, between square brackets.
pub open spec fn list_str(items: Seq<Seq<char>>) -> Seq<char> {
    "["@ + join_comma(items) + "]"@
}

/// Formats a list field for the wire.
pub fn format_list(items: &Vec<String>) -> (r: String)
    ensures
        r@ == list_str(strings_view(items@)),
{
    let mut r = String::from_str("[");
    let mut i: usize = 0;
    while i < items.len()
        invariant
            i <= items@.len(),
            r@ == "["@ + join_comma(strings_view(items@).take(i as int)),
        decreases items@.len() - i,
    {
        if i > 0 {
            r.append(", ");
        }
        r.append(items[i].as_str());
        proof {
            let vs = strings_view(items@);
            assert(vs.take(i + 1 as int).drop_last() =~= vs.take(i as int));
            assert(vs.take(i + 1 as int).last() == items@[i as int]@);
            assert(r@ =~= "["@ + join_comma(vs.take(i + 1 as int)));
        }
        i = i + 1;
    }
    proof {
        assert(strings_view(items@).take(items@.len() as int) =~= strings_view(items@));
    }
    r.append("]");
    r
}

/// The serialized form of an event: its ordered field-name to
/// string-value mapping, field names in ascending order, exactly as the
/// published record carries them. `token_id` fields are flattened to the
/// raw index or raw hash string.
pub open spec fn spec_event_fields(e: CEP78Event, package: Seq<char>) -> Seq<
    (Seq<char>, Seq<char>),
> {
    match e {
        CEP78Event::Init {
            collection_name,
            collection_symbol,
            total_token_supply,
            allow_minting,
            minting_mode,
            ownership_mode,
            nft_kind,
            holder_mode,
            whitelist_mode,
            contract_whitelist,
            json_schema,
            nft_metadata_kind,
            identifier_mode,
            metadata_mutability,
            burn_mode,
            reporting_mode,
        } => seq![
            ("allow_minting"@, bool_str(allow_minting)),
            ("burn_mode"@, dec_str(burn_mode as nat)),
            ("collection_name"@, collection_name@),
            ("collection_symbol"@, collection_symbol@),
            ("contract_package_hash"@, package),
            ("contract_whitelist"@, list_str(strings_view(contract_whitelist@))),
            ("event_type"@, "cep78_init"@),
            ("holder_mode"@, dec_str(holder_mode as nat)),
            ("identifier_mode"@, dec_str(identifier_mode as nat)),
            ("json_schema"@, json_schema@),
            ("metadata_mutability"@, dec_str(metadata_mutability as nat)),
            ("minting_mode"@, dec_str(minting_mode as nat)),
            ("nft_kind"@, dec_str(nft_kind as nat)),
            ("nft_metadata_kind"@, dec_str(nft_metadata_kind as nat)),
            ("ownership_mode"@, dec_str(ownership_mode as nat)),
            ("reporting_mode"@, dec_str(reporting_mode as nat)),
            ("total_token_supply"@, dec_str(total_token_supply as nat)),
            ("whitelist_mode"@, dec_str(whitelist_mode as nat)),
        ],
        CEP78Event::SetVariables { allow_minting, contract_whitelist } => seq![
            ("allow_minting"@, bool_str(allow_minting)),
            ("contract_package_hash"@, package),
            ("contract_whitelist"@, list_str(strings_view(contract_whitelist@))),
            ("event_type"@, "cep78_set_variables"@),
        ],
        CEP78Event::Approve { owner, spender, token_id } => seq![
            ("contract_package_hash"@, package),
            ("event_type"@, "cep78_approve"@),
            ("owner"@, owner@),
            ("spender"@, spender@),
            ("token_id"@, token_key_spec(token_id)),
        ],
        CEP78Event::Transfer { from, to, token_id, from_balance, to_balance } => seq![
            ("contract_package_hash"@, package),
            ("event_type"@, "cep78_transfer"@),
            ("from"@, from@),
            ("from_balance"@, dec_str(from_balance as nat)),
            ("to"@, to@),
            ("to_balance"@, dec_str(to_balance as nat)),
            ("token_id"@, token_key_spec(token_id)),
        ],
        CEP78Event::Mint { to, token_id, balance } => seq![
            ("balance"@, dec_str(balance as nat)),
            ("contract_package_hash"@, package),
            ("event_type"@, "cep78_mint"@),
            ("to"@, to@),
            ("token_id"@, token_key_spec(token_id)),
        ],
        CEP78Event::Burn { from, token_id, balance } => seq![
            ("balance"@, dec_str(balance as nat)),
            ("contract_package_hash"@, package),
            ("event_type"@, "cep78_burn"@),
            ("from"@, from@),
            ("token_id"@, token_key_spec(token_id)),
        ],
        CEP78Event::UpdateMetadata { token_id, updated_token_metadata } => seq![
            ("contract_package_hash"@, package),
            ("event_type"@, "cep78_update_metadata"@),
            ("token_id"@, token_key_spec(token_id)),
            ("updated_token_metadata"@, updated_token_metadata@),
        ],
        CEP78Event::SetCollectionRoyalty { royalty, recipient } => seq![
            ("contract_package_hash"@, package),
            ("event_type"@, "cep78_set_collection_royalty"@),
            ("recipient"@, recipient@),
            ("royalty"@, dec_str(royalty as nat)),
        ],
        CEP78Event::SetTokenRoyalty { token_id, royalty, recipient } => seq![
            ("contract_package_hash"@, package),
            ("event_type"@, "cep78_set_token_royalty"@),
            ("recipient"@, recipient@),
            ("royalty"@, dec_str(royalty as nat)),
            ("token_id"@, token_key_spec(token_id)),
        ],
    }
}

/// The views of a serialized record's pairs.
pub open spec fn pairs_view(v: Seq<(String, String)>) -> Seq<(Seq<char>, Seq<char>)> {
    Seq::new(v.len(), |i: int| (v[i].0@, v[i].1@))
}

/// One field of a record under construction.
fn push_field(out: &mut Vec<(String, String)>, name: &str, value: String)
    ensures
        pairs_view(final(out)@) == pairs_view(old(out)@).push((name@, value@)),
{
    out.push((String::from_str(name), value));
    proof {
        assert(pairs_view(out@) =~= pairs_view(old(out)@).push((name@, value@)));
    }
}

/// Serializes one event for publication: the ordered field-name to
/// string-value pairs of `spec_event_fields`, given the formatted
/// contract-package identifier the event is tagged with.
pub fn serialize_event(e: &CEP78Event, contract_package_hash: &str) -> (out: Vec<
    (String, String),
>)
    ensures
        pairs_view(out@) == spec_event_fields(*e, contract_package_hash@),
{
    let mut out: Vec<(String, String)> = Vec::new();
    match e {
        CEP78Event::Init {
            collection_name,
            collection_symbol,
            total_token_supply,
            allow_minting,
            minting_mode,
            ownership_mode,
            nft_kind,
            holder_mode,
            whitelist_mode,
            contract_whitelist,
            json_schema,
            nft_metadata_kind,
            identifier_mode,
            metadata_mutability,
            burn_mode,
            reporting_mode,
        } => {
            push_field(&mut out, "allow_minting", bool_to_dec(*allow_minting));
            push_field(&mut out, "burn_mode", u64_to_dec(*burn_mode as u64));
            push_field(&mut out, "collection_name", String::from_str(collection_name.as_str()));
            push_field(
                &mut out,
                "collection_symbol",
                String::from_str(collection_symbol.as_str()),
            );
            push_field(
                &mut out,
                "contract_package_hash",
                String::from_str(contract_package_hash),
            );
            push_field(&mut out, "contract_whitelist", format_list(contract_whitelist));
            push_field(&mut out, "event_type", String::from_str("cep78_init"));
            push_field(&mut out, "holder_mode", u64_to_dec(*holder_mode as u64));
            push_field(&mut out, "identifier_mode", u64_to_dec(*identifier_mode as u64));
            push_field(&mut out, "json_schema", String::from_str(json_schema.as_str()));
            push_field(
                &mut out,
                "metadata_mutability",
                u64_to_dec(*metadata_mutability as u64),
            );
            push_field(&mut out, "minting_mode", u64_to_dec(*minting_mode as u64));
            push_field(&mut out, "nft_kind", u64_to_dec(*nft_kind as u64));
            push_field(&mut out, "nft_metadata_kind", u64_to_dec(*nft_metadata_kind as u64));
            push_field(&mut out, "ownership_mode", u64_to_dec(*ownership_mode as u64));
            push_field(&mut out, "reporting_mode", u64_to_dec(*reporting_mode as u64));
            push_field(&mut out, "total_token_supply", u64_to_dec(*total_token_supply));
            push_field(&mut out, "whitelist_mode", u64_to_dec(*whitelist_mode as u64));
        },
        CEP78Event::SetVariables { allow_minting, contract_whitelist } => {
            push_field(&mut out, "allow_minting", bool_to_dec(*allow_minting));
            push_field(
                &mut out,
                "contract_package_hash",
                String::from_str(contract_package_hash),
            );
            push_field(&mut out, "contract_whitelist", format_list(contract_whitelist));
            push_field(&mut out, "event_type", String::from_str("cep78_set_variables"));
        },
        CEP78Event::Approve { owner, spender, token_id } => {
            push_field(
                &mut out,
                "contract_package_hash",
                String::from_str(contract_package_hash),
            );
            push_field(&mut out, "event_type", String::from_str("cep78_approve"));
            push_field(&mut out, "owner", String::from_str(owner.as_str()));
            push_field(&mut out, "spender", String::from_str(spender.as_str()));
            push_field(&mut out, "token_id", token_id.key_string());
        },
        CEP78Event::Transfer { from, to, token_id, from_balance, to_balance } => {
            push_field(
                &mut out,
                "contract_package_hash",
                String::from_str(contract_package_hash),
            );
            push_field(&mut out, "event_type", String::from_str("cep78_transfer"));
            push_field(&mut out, "from", String::from_str(from.as_str()));
            push_field(&mut out, "from_balance", u64_to_dec(*from_balance));
            push_field(&mut out, "to", String::from_str(to.as_str()));
            push_field(&mut out, "to_balance", u64_to_dec(*to_balance));
            push_field(&mut out, "token_id", token_id.key_string());
        },
        CEP78Event::Mint { to, token_id, balance } => {
            push_field(&mut out, "balance", u64_to_dec(*balance));
            push_field(
                &mut out,
                "contract_package_hash",
                String::from_str(contract_package_hash),
            );
            push_field(&mut out, "event_type", String::from_str("cep78_mint"));
            push_field(&mut out, "to", String::from_str(to.as_str()));
            push_field(&mut out, "token_id", token_id.key_string());
        },
        CEP78Event::Burn { from, token_id, balance } => {
            push_field(&mut out, "balance", u64_to_dec(*balance));
            push_field(
                &mut out,
                "contract_package_hash",
                String::from_str(contract_package_hash),
            );
            push_field(&mut out, "event_type", String::from_str("cep78_burn"));
            push_field(&mut out, "from", String::from_str(from.as_str()));
            push_field(&mut out, "token_id", token_id.key_string());
        },
        CEP78Event::UpdateMetadata { token_id, updated_token_metadata } => {
            push_field(
                &mut out,
                "contract_package_hash",
                String::from_str(contract_package_hash),
            );
            push_field(&mut out, "event_type", String::from_str("cep78_update_metadata"));
            push_field(&mut out, "token_id", token_id.key_string());
            push_field(
                &mut out,
                "updated_token_metadata",
                String::from_str(updated_token_metadata.as_str()),
            );
        },
        CEP78Event::SetCollectionRoyalty { royalty, recipient } => {
            push_field(
                &mut out,
                "contract_package_hash",
                String::from_str(contract_package_hash),
            );
            push_field(&mut out, "event_type", String::from_str("cep78_set_collection_royalty"));
            push_field(&mut out, "recipient", String::from_str(recipient.as_str()));
            push_field(&mut out, "royalty", u64_to_dec(*royalty as u64));
        },
        CEP78Event::SetTokenRoyalty { token_id, royalty, recipient } => {
            push_field(
                &mut out,
                "contract_package_hash",
                String::from_str(contract_package_hash),
            );
            push_field(&mut out, "event_type", String::from_str("cep78_set_token_royalty"));
            push_field(&mut out, "recipient", String::from_str(recipient.as_str()));
            push_field(&mut out, "royalty", u64_to_dec(*royalty as u64));
            push_field(&mut out, "token_id", token_id.key_string());
        },
    }
    proof {
        assert(pairs_view(out@) =~= spec_event_fields(*e, contract_package_hash@));
    }
    out
}

/// Serializes a batch of events from one call, keeping invocation order:
/// the record at each position is the serialization of the event at that
/// position, and every record is tagged with the same resolved package
/// identifier.
pub fn serialize_events(events: &Vec<CEP78Event>, contract_package_hash: &str) -> (out: Vec<
    Vec<(String, String)>,
>)
    ensures
        out@.len() == events@.len(),
        forall|i: int|
            0 <= i < events@.len() ==> pairs_view(#[trigger] out@[i]@) == spec_event_fields(
                events@[i],
                contract_package_hash@,
            ),
        forall|i: int|
            0 <= i < events@.len() ==> pairs_view(#[trigger] out@[i]@).contains(
                ("contract_package_hash"@, contract_package_hash@),
            ),
{
    let mut out: Vec<Vec<(String, String)>> = Vec::new();
    let mut i: usize = 0;
    while i < events.len()
        invariant
            i <= events@.len(),
            out@.len() == i,
            forall|j: int|
                0 <= j < i ==> pairs_view(#[trigger] out@[j]@) == spec_event_fields(
                    events@[j],
                    contract_package_hash@,
                ),
        decreases events@.len() - i,
    {
        out.push(serialize_event(&events[i], contract_package_hash));
        i = i + 1;
    }
    proof {
        assert forall|k: int| 0 <= k < events@.len() implies pairs_view(
            #[trigger] out@[k]@,
        ).contains(("contract_package_hash"@, contract_package_hash@)) by {
            lemma_event_has_package_field(events@[k], contract_package_hash@);
        }
    }
    out
}

/// Every serialized event carries the resolved contract-package
/// identifier under its `contract_package_hash` field, whatever the
/// variant: multi-instance deployments stay attributable.
pub proof fn lemma_event_has_package_field(e: CEP78Event, package: Seq<char>)
    ensures
        spec_event_fields(e, package).contains(("contract_package_hash"@, package)),
{
    let fields = spec_event_fields(e, package);
    match e {
        CEP78Event::Init { .. } => {
            assert(fields[4] == ("contract_package_hash"@, package));
        },
        CEP78Event::SetVariables { .. } => {
            assert(fields[1] == ("contract_package_hash"@, package));
        },
        CEP78Event::Approve { .. } => {
            assert(fields[0] == ("contract_package_hash"@, package));
        },
        CEP78Event::Transfer { .. } => {
            assert(fields[0] == ("contract_package_hash"@, package));
        },
        CEP78Event::Mint { .. } => {
            assert(fields[1] == ("contract_package_hash"@, package));
        },
        CEP78Event::Burn { .. } => {
            assert(fields[1] == ("contract_package_hash"@, package));
        },
        CEP78Event::UpdateMetadata { .. } => {
            assert(fields[0] == ("contract_package_hash"@, package));
        },
        CEP78Event::SetCollectionRoyalty { .. } => {
            assert(fields[0] == ("contract_package_hash"@, package));
        },
        CEP78Event::SetTokenRoyalty { .. } => {
            assert(fields[0] == ("contract_package_hash"@, package));
        },
    }
}

} // verus!
