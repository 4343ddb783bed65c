//! The tagged-value model of generic protobuf field trees and the builders
//! that assemble one canonical tree per supported transaction type.
//!
//! A field pairs a value with a declared kind label, a human-readable name
//! and the real protobuf field number of the target schema; the remote
//! decoder trusts the label and the number verbatim, so the builders must
//! reproduce both exactly.

use vstd::prelude::*;

verus! {

use crate::wire;
use vstd::string::StringSliceAdditionalSpecFns;

/// A literal textual field value.
#[derive(Clone, Debug, PartialEq, Eq)]
pub struct StringObject {
    pub string: String,
}

/// The contents of an array value: a kind label and an ordered,
/// order-significant sequence of elements.
#[derive(Debug, PartialEq, Eq)]
pub struct ArrayDetail {
    pub kind: String,
    pub elems: Vec<Objects>,
}

/// An array field value.
#[derive(Debug, PartialEq, Eq)]
pub struct ArrayObject {
    pub array: ArrayDetail,
}

/// A nested sub-message: an ordered sequence of fields.
#[derive(Debug, PartialEq, Eq)]
pub struct MessageObject {
    pub message: Vec<MesssageDetails>,
}

/// An opaque binary payload, carried base64-encoded.
#[derive(Clone, Debug, PartialEq, Eq)]
pub struct BytesObject {
    pub bytes: String,
}

/// An integer rendered as a decimal string, avoiding precision loss across
/// JSON numeric limits.
#[derive(Clone, Debug, PartialEq, Eq)]
pub struct IntObject {
    pub int: String,
}

/// A denomination and an amount, kept as a special-cased pair to match the
/// remote schema's coin type.
#[derive(Debug, PartialEq, Eq)]
pub struct CoinObject {
    pub denom: String,
    pub amount: String,
}

/// The closed set of typed field values, forming a recursive tree.
#[derive(Debug, PartialEq, Eq)]
pub enum Objects {
    String(StringObject),
    Array(ArrayObject),
    Message(MessageObject),
    Bytes(BytesObject),
    Int(IntObject),
    Coin(CoinObject),
}

/// One field of a message: a kind label, a name, the target schema's
/// protobuf field number, and the owned value.
#[derive(Debug, PartialEq, Eq)]
pub struct MesssageDetails {
    pub kind: String,
    pub name: String,
    pub field_id: u32,
    pub value: Box<Objects>,
}

/// A top-level message: a fully-qualified Cosmos SDK type URL and the
/// ordered fields of the message body.
#[derive(Debug, PartialEq, Eq)]
pub struct Message {
    pub url: String,
    pub message: Vec<MesssageDetails>,
}

/// The mathematical model of a field value.
#[verifier::ext_equal]
pub enum ObjectsView {
    StringV { string: Seq<char> },
    ArrayV { kind: Seq<char>, elems: Seq<ObjectsView> },
    MessageV { message: Seq<FieldView> },
    BytesV { bytes: Seq<char> },
    IntV { int: Seq<char> },
    CoinV { denom: Seq<char>, amount: Seq<char> },
}

/// The mathematical model of one field.
#[verifier::ext_equal]
pub struct FieldView {
    pub kind: Seq<char>,
    pub name: Seq<char>,
    pub field_id: u32,
    pub value: ObjectsView,
}

/// The mathematical model of a top-level message.
#[verifier::ext_equal]
pub struct MessageView {
    pub url: Seq<char>,
    pub message: Seq<FieldView>,
}

pub open spec fn obj_view(o: Objects) -> ObjectsView
    decreases o,
{
    match o {
        Objects::String(s) => ObjectsView::StringV { string: s.string@ },
        Objects::Array(a) => ObjectsView::ArrayV {
            kind: a.array.kind@,
            elems: objs_view(a.array.elems@),
        },
        Objects::Message(m) => ObjectsView::MessageV { message: fields_view(m.message@) },
        Objects::Bytes(b) => ObjectsView::BytesV { bytes: b.bytes@ },
        Objects::Int(i) => ObjectsView::IntV { int: i.int@ },
        Objects::Coin(c) => ObjectsView::CoinV { denom: c.denom@, amount: c.amount@ },
    }
}

pub open spec fn objs_view(s: Seq<Objects>) -> Seq<ObjectsView>
    decreases s,
{
    if s.len() == 0 {
        Seq::empty()
    } else {
        seq![obj_view(s[0])] + objs_view(s.drop_first())
    }
}

pub open spec fn field_view(d: MesssageDetails) -> FieldView
    decreases d,
{
    FieldView { kind: d.kind@, name: d.name@, field_id: d.field_id, value: obj_view(*d.value) }
}

pub open spec fn fields_view(s: Seq<MesssageDetails>) -> Seq<FieldView>
    decreases s,
{
    if s.len() == 0 {
        Seq::empty()
    } else {
        seq![field_view(s[0])] + fields_view(s.drop_first())
    }
}

impl View for Objects {
    type V = ObjectsView;

    open spec fn view(&self) -> ObjectsView {
        obj_view(*self)
    }
}

impl View for MesssageDetails {
    type V = FieldView;

    open spec fn view(&self) -> FieldView {
        field_view(*self)
    }
}

impl View for CoinObject {
    type V = ObjectsView;

    open spec fn view(&self) -> ObjectsView {
        ObjectsView::CoinV { denom: self.denom@, amount: self.amount@ }
    }
}

impl View for Message {
    type V = MessageView;

    open spec fn view(&self) -> MessageView {
        MessageView { url: self.url@, message: fields_view(self.message@) }
    }
}

pub proof fn lemma_fields_view_index(s: Seq<MesssageDetails>)
    ensures
        fields_view(s).len() == s.len(),
        forall|i: int| 0 <= i < s.len() ==> #[trigger] fields_view(s)[i] == field_view(s[i]),
    decreases s.len(),
{
    if s.len() > 0 {
        lemma_fields_view_index(s.drop_first());
    }
}

pub proof fn lemma_objs_view_index(s: Seq<Objects>)
    ensures
        objs_view(s).len() == s.len(),
        forall|i: int| 0 <= i < s.len() ==> #[trigger] objs_view(s)[i] == obj_view(s[i]),
    decreases s.len(),
{
    if s.len() > 0 {
        lemma_objs_view_index(s.drop_first());
    }
}

/// The canonical kind label of a value's variant. The remote decoder trusts
/// the label rather than introspecting the value shape, so every field must
/// carry the label of its own variant.
pub open spec fn kind_label(v: ObjectsView) -> Seq<char> {
    match v {
        ObjectsView::StringV { .. } => "String"@,
        ObjectsView::ArrayV { .. } => "Array"@,
        ObjectsView::MessageV { .. } => "Message"@,
        ObjectsView::BytesV { .. } => "Bytes"@,
        ObjectsView::IntV { .. } => "Int"@,
        ObjectsView::CoinV { .. } => "Coin"@,
    }
}

/// Field ids must be unique among sibling fields of the same parent message.
pub open spec fn field_ids_unique(s: Seq<FieldView>) -> bool {
    forall|i: int, j: int|
        #![trigger s[i].field_id, s[j].field_id]
        0 <= i < j < s.len() ==> s[i].field_id != s[j].field_id
}

pub open spec fn wf_value(v: ObjectsView) -> bool
    decreases v,
{
    match v {
        ObjectsView::ArrayV { elems, .. } => wf_values(elems),
        ObjectsView::MessageV { message } => wf_fields(message),
        _ => true,
    }
}

pub open spec fn wf_values(s: Seq<ObjectsView>) -> bool
    decreases s,
{
    if s.len() == 0 {
        true
    } else {
        wf_value(s[0]) && wf_values(s.drop_first())
    }
}

/// A field is well formed when its id is a positive protobuf field number,
/// its kind label matches its value's variant, and the value itself is well
/// formed.
pub open spec fn wf_field(f: FieldView) -> bool
    decreases f,
{
    &&& 1 <= f.field_id
    &&& f.kind == kind_label(f.value)
    &&& wf_value(f.value)
}

pub open spec fn wf_fields(s: Seq<FieldView>) -> bool
    decreases s,
{
    &&& field_ids_unique(s)
    &&& (s.len() == 0 || (wf_field(s[0]) && wf_fields(s.drop_first())))
}

/// A message tree is well formed when every level of it is: positive field
/// ids, unique among siblings, and kind labels that match the variants.
pub open spec fn wf_message(m: MessageView) -> bool {
    wf_fields(m.message)
}

/// A sibling list is well formed once its ids are unique and each field is
/// well formed on its own.
pub proof fn lemma_wf_fields_from_pointwise(s: Seq<FieldView>)
    requires
        field_ids_unique(s),
        forall|i: int| 0 <= i < s.len() ==> #[trigger] wf_field(s[i]),
    ensures
        wf_fields(s),
    decreases s.len(),
{
    if s.len() > 0 {
        let t = s.drop_first();
        assert forall|i: int, j: int|
            #![trigger t[i].field_id, t[j].field_id]
            0 <= i < j < t.len() implies t[i].field_id != t[j].field_id by {
            assert(t[i] == s[i + 1]);
            assert(t[j] == s[j + 1]);
        }
        assert forall|i: int| 0 <= i < t.len() implies #[trigger] wf_field(t[i]) by {
            assert(t[i] == s[i + 1]);
        }
        lemma_wf_fields_from_pointwise(t);
        assert(wf_field(s[0]));
        assert(wf_fields(s));
    }
}

/// The decimal digit character for a value below ten.
pub open spec fn dec_digit(d: nat) -> char {
    if d == 0 {
        '0'
    } else if d == 1 {
        '1'
    } else if d == 2 {
        '2'
    } else if d == 3 {
        '3'
    } else if d == 4 {
        '4'
    } else if d == 5 {
        '5'
    } else if d == 6 {
        '6'
    } else if d == 7 {
        '7'
    } else if d == 8 {
        '8'
    } else {
        '9'
    }
}

/// The decimal rendering of `n`, most significant digit first, with no
/// leading zeros (a single zero digit for zero itself).
pub open spec fn dec_str_of(n: nat) -> Seq<char>
    decreases n,
{
    if n < 10 {
        seq![dec_digit(n)]
    } else {
        dec_str_of(n / 10) + seq![dec_digit(n % 10)]
    }
}

fn digit_char(d: u64) -> (c: char)
    requires
        d < 10,
    ensures
        c == dec_digit(d as nat),
{
    match d {
        0 => '0',
        1 => '1',
        2 => '2',
        3 => '3',
        4 => '4',
        5 => '5',
        6 => '6',
        7 => '7',
        8 => '8',
        _ => '9',
    }
}

/// Relies on `String::push`: appends exactly the one given character.
#[verifier::external_body]
fn string_push_char(s: &mut String, c: char)
    ensures
        final(s)@ == old(s)@ + seq![c],
{
    s.push(c);
}

fn push_decimal(n: u64, out: &mut String)
    ensures
        final(out)@ == old(out)@ + dec_str_of(n as nat),
    decreases n,
{
    if n < 10 {
        string_push_char(out, digit_char(n));
        assert(out@ =~= old(out)@ + dec_str_of(n as nat));
    } else {
        push_decimal(n / 10, out);
        string_push_char(out, digit_char(n % 10));
        assert(out@ =~= old(out)@ + dec_str_of(n as nat));
    }
}

/// Renders an unsigned 64-bit value as its exact decimal string, digit by
/// digit, so no precision is lost for any value.
pub fn u64_to_decimal(n: u64) -> (r: String)
    ensures
        r@ == dec_str_of(n as nat),
{
    let mut out = String::new();
    push_decimal(n, &mut out);
    proof {
        assert(out@ =~= dec_str_of(n as nat));
    }
    out
}

pub open spec fn spec_string_field(name: Seq<char>, field_id: u32, value: Seq<char>) -> FieldView {
    FieldView {
        kind: "String"@,
        name: name,
        field_id: field_id,
        value: ObjectsView::StringV { string: value },
    }
}

pub open spec fn spec_int_field(name: Seq<char>, field_id: u32, value: Seq<char>) -> FieldView {
    FieldView {
        kind: "Int"@,
        name: name,
        field_id: field_id,
        value: ObjectsView::IntV { int: value },
    }
}

pub open spec fn spec_bytes_field(name: Seq<char>, field_id: u32, value: Seq<char>) -> FieldView {
    FieldView {
        kind: "Bytes"@,
        name: name,
        field_id: field_id,
        value: ObjectsView::BytesV { bytes: value },
    }
}

pub open spec fn spec_message_field(name: Seq<char>, field_id: u32, fields: Seq<FieldView>) -> FieldView {
    FieldView {
        kind: "Message"@,
        name: name,
        field_id: field_id,
        value: ObjectsView::MessageV { message: fields },
    }
}

fn string_field(name: &str, field_id: u32, value: String) -> (d: MesssageDetails)
    ensures
        d@ == spec_string_field(name@, field_id, value@),
{
    MesssageDetails {
        kind: "String".to_string(),
        name: name.to_string(),
        field_id: field_id,
        value: Box::new(Objects::String(StringObject { string: value })),
    }
}

fn int_field(name: &str, field_id: u32, value: String) -> (d: MesssageDetails)
    ensures
        d@ == spec_int_field(name@, field_id, value@),
{
    MesssageDetails {
        kind: "Int".to_string(),
        name: name.to_string(),
        field_id: field_id,
        value: Box::new(Objects::Int(IntObject { int: value })),
    }
}

fn bytes_field(name: &str, field_id: u32, value: String) -> (d: MesssageDetails)
    ensures
        d@ == spec_bytes_field(name@, field_id, value@),
{
    MesssageDetails {
        kind: "Bytes".to_string(),
        name: name.to_string(),
        field_id: field_id,
        value: Box::new(Objects::Bytes(BytesObject { bytes: value })),
    }
}

fn message_field(name: &str, field_id: u32, fields: Vec<MesssageDetails>) -> (d: MesssageDetails)
    ensures
        d@ == spec_message_field(name@, field_id, fields_view(fields@)),
{
    MesssageDetails {
        kind: "Message".to_string(),
        name: name.to_string(),
        field_id: field_id,
        value: Box::new(Objects::Message(MessageObject { message: fields })),
    }
}

/// The model of the revocation message: granter, grantee and the revoked
/// message type URL, at field ids one to three.
pub open spec fn spec_revoke_message(
    granter: Seq<char>,
    grantee: Seq<char>,
    msg_type_url: Seq<char>,
) -> MessageView {
    MessageView {
        url: "/cosmos.authz.v1beta1.MsgRevoke"@,
        message: seq![
            spec_string_field("granter"@, 1, granter),
            spec_string_field("grantee"@, 2, grantee),
            spec_string_field("msg_type_url"@, 3, msg_type_url),
        ],
    }
}

impl Message {
    /// Builds the authorization-revocation message: three plain string
    /// fields, numbered one to three, and nothing nested.
    pub fn build_revoke_message(granter: String, grantee: String, msg_type_url: String) -> (m:
        Message)
        ensures
            m@ == spec_revoke_message(granter@, grantee@, msg_type_url@),
            wf_message(m@),
    {
        let mut fields: Vec<MesssageDetails> = Vec::new();
        fields.push(string_field("granter", 1, granter));
        fields.push(string_field("grantee", 2, grantee));
        fields.push(string_field("msg_type_url", 3, msg_type_url));
        let m = Message { url: "/cosmos.authz.v1beta1.MsgRevoke".to_string(), message: fields };
        proof {
            lemma_fields_view_index(m.message@);
            assert(m@.message =~= spec_revoke_message(granter@, grantee@, msg_type_url@).message);
            assert(m@ =~= spec_revoke_message(granter@, grantee@, msg_type_url@));
            lemma_revoke_message_wf(granter@, grantee@, msg_type_url@);
        }
        m
    }
}

/// The seconds value of the fixed expiration instant every grant currently
/// carries. The grant builder accepts an expiration argument but does not
/// thread it through; this named value is the single place the fixed instant
/// lives, so the choice stays visible rather than hidden in the tree.
pub open spec fn spec_grant_timestamp_seconds() -> Seq<char> {
    "1732193243"@
}

/// The nanoseconds value of the fixed expiration instant.
pub open spec fn spec_grant_timestamp_nanos() -> Seq<char> {
    "0"@
}

/// The decimal rendering of the fixed expiration seconds.
pub fn grant_timestamp_seconds() -> (r: String)
    ensures
        r@ == spec_grant_timestamp_seconds(),
{
    "1732193243".to_string()
}

/// The decimal rendering of the fixed expiration nanoseconds.
pub fn grant_timestamp_nanos() -> (r: String)
    ensures
        r@ == spec_grant_timestamp_nanos(),
{
    "0".to_string()
}

/// The model of the authorization-grant message: granter and grantee at
/// field ids one and two, and at field id three a nested grant holding a
/// generic authorization (type URL plus the wire-encoded payload) and an
/// expiration timestamp.
pub open spec fn spec_authz_message(
    granter: Seq<char>,
    grantee: Seq<char>,
    authorization: Seq<char>,
) -> MessageView {
    MessageView {
        url: "/cosmos.authz.v1beta1.MsgGrant"@,
        message: seq![
            spec_string_field("granter"@, 1, granter),
            spec_string_field("grantee"@, 2, grantee),
            spec_message_field(
                "grant"@,
                3,
                seq![
                    spec_message_field(
                        "authorization"@,
                        1,
                        seq![
                            spec_string_field(
                                "type_url"@,
                                1,
                                "/cosmos.authz.v1beta1.GenericAuthorization"@,
                            ),
                            spec_bytes_field(
                                "value"@,
                                2,
                                wire::base64_std_of(
                                    wire::string_field_payload(
                                        vstd::utf8::encode_utf8(authorization),
                                    ),
                                ),
                            ),
                        ],
                    ),
                    spec_message_field(
                        "timestamp"@,
                        2,
                        seq![
                            spec_int_field("seconds"@, 1, spec_grant_timestamp_seconds()),
                            spec_int_field("nanos"@, 2, spec_grant_timestamp_nanos()),
                        ],
                    ),
                ],
            ),
        ],
    }
}

impl Message {
    /// Encodes `value` as a minimal protobuf message holding one string field
    /// at field number 1, strips the single leading tag byte (the remote
    /// service wraps the payload in its own envelope, and a second tag would
    /// double-encode it), and returns the remainder base64-encoded with the
    /// standard alphabet and padding.
    pub fn encode_proto_string(data: &str) -> (r: String)
        requires
            wire::wire_encodable(data.spec_bytes()),
        ensures
            r@ == wire::base64_std_of(wire::string_field_payload(data.spec_bytes())),
    {
        wire::encode_string_payload(data)
    }

    /// Builds the authorization-grant message. The `_expiration` argument is
    /// accepted for interface stability but deliberately not threaded into
    /// the timestamp fields, which keep the fixed instant named by
    /// `grant_timestamp_seconds` and `grant_timestamp_nanos`; wiring a real
    /// expiration through is a schema decision, not a local fix.
    pub fn build_authz_message(
        granter: String,
        grantee: String,
        authorization: String,
        _expiration: String,
    ) -> (m: Message)
        requires
            wire::wire_encodable(vstd::utf8::encode_utf8(authorization@)),
        ensures
            m@ == spec_authz_message(granter@, grantee@, authorization@),
            wf_message(m@),
    {
        let ghost auth_chars = authorization@;
        let encoded = Self::encode_proto_string(authorization.as_str());

        let mut auth_fields: Vec<MesssageDetails> = Vec::new();
        auth_fields.push(
            string_field("type_url", 1, "/cosmos.authz.v1beta1.GenericAuthorization".to_string()),
        );
        auth_fields.push(bytes_field("value", 2, encoded));
        let ghost af = auth_fields@;

        let mut ts_fields: Vec<MesssageDetails> = Vec::new();
        ts_fields.push(int_field("seconds", 1, grant_timestamp_seconds()));
        ts_fields.push(int_field("nanos", 2, grant_timestamp_nanos()));
        let ghost tf = ts_fields@;

        let mut grant_fields: Vec<MesssageDetails> = Vec::new();
        grant_fields.push(message_field("authorization", 1, auth_fields));
        grant_fields.push(message_field("timestamp", 2, ts_fields));
        let ghost gf = grant_fields@;

        let mut fields: Vec<MesssageDetails> = Vec::new();
        fields.push(string_field("granter", 1, granter));
        fields.push(string_field("grantee", 2, grantee));
        fields.push(message_field("grant", 3, grant_fields));

        let m = Message { url: "/cosmos.authz.v1beta1.MsgGrant".to_string(), message: fields };
        proof {
            let spec_m = spec_authz_message(granter@, grantee@, auth_chars);
            lemma_fields_view_index(af);
            assert(fields_view(af) =~= spec_m.message[2].value->MessageV_message[0].value
                ->MessageV_message);
            lemma_fields_view_index(tf);
            assert(fields_view(tf) =~= spec_m.message[2].value->MessageV_message[1].value
                ->MessageV_message);
            lemma_fields_view_index(gf);
            assert(fields_view(gf) =~~= spec_m.message[2].value->MessageV_message);
            lemma_fields_view_index(m.message@);
            assert(m@.message =~~= spec_m.message);
            assert(m@ =~~= spec_m);
            lemma_authz_message_wf(granter@, grantee@, auth_chars);
        }
        m
    }
}

/// Every grant tree is well formed, at each of its three nesting levels.
pub proof fn lemma_authz_message_wf(
    granter: Seq<char>,
    grantee: Seq<char>,
    authorization: Seq<char>,
)
    ensures
        wf_message(spec_authz_message(granter, grantee, authorization)),
{
    let top = spec_authz_message(granter, grantee, authorization).message;
    let grant = top[2].value->MessageV_message;
    let auth = grant[0].value->MessageV_message;
    let ts = grant[1].value->MessageV_message;
    assert(wf_field(auth[0]));
    assert(wf_field(auth[1]));
    lemma_wf_fields_from_pointwise(auth);
    assert(wf_field(ts[0]));
    assert(wf_field(ts[1]));
    lemma_wf_fields_from_pointwise(ts);
    assert(wf_field(grant[0]));
    assert(wf_field(grant[1]));
    lemma_wf_fields_from_pointwise(grant);
    assert(wf_field(top[0]));
    assert(wf_field(top[1]));
    assert(wf_field(top[2]));
    lemma_wf_fields_from_pointwise(top);
}

/// Every revocation tree is well formed: labels match variants and the three
/// sibling ids are distinct.
pub proof fn lemma_revoke_message_wf(granter: Seq<char>, grantee: Seq<char>, msg_type_url: Seq<char>)
    ensures
        wf_message(spec_revoke_message(granter, grantee, msg_type_url)),
{
    let s = spec_revoke_message(granter, grantee, msg_type_url).message;
    assert(wf_field(s[0]));
    assert(wf_field(s[1]));
    assert(wf_field(s[2]));
    lemma_wf_fields_from_pointwise(s);
}

/// The model of the contract-migration message: sender, contract, the new
/// code id as a decimal string, and the already-encoded migrate payload
/// passed through untouched.
pub open spec fn spec_contract_migrate(
    sender: Seq<char>,
    contract: Seq<char>,
    code_id: nat,
    msg: Seq<char>,
) -> MessageView {
    MessageView {
        url: "/cosmwasm.wasm.v1.MsgMigrateContract"@,
        message: seq![
            spec_string_field("sender"@, 1, sender),
            spec_string_field("contract"@, 2, contract),
            spec_int_field("code_id"@, 3, dec_str_of(code_id)),
            spec_bytes_field("msg"@, 4, msg),
        ],
    }
}

/// The model of the contract-instantiation message: sender, admin, code id,
/// label and the pass-through instantiate payload, at field ids one to five.
pub open spec fn spec_contract_instantiate(
    sender: Seq<char>,
    admin: Seq<char>,
    label: Seq<char>,
    code_id: nat,
    msg: Seq<char>,
) -> MessageView {
    MessageView {
        url: "/cosmwasm.wasm.v1.MsgInstantiateContract"@,
        message: seq![
            spec_string_field("sender"@, 1, sender),
            spec_string_field("admin"@, 2, admin),
            spec_int_field("code_id"@, 3, dec_str_of(code_id)),
            spec_string_field("label"@, 4, label),
            spec_bytes_field("msg"@, 5, msg),
        ],
    }
}

/// The model of the contract-execution message. Field id four is
/// deliberately absent: the schema reserves it for a field this builder does
/// not populate, and ids are schema-fixed, not positional.
pub open spec fn spec_contract_execute(
    sender: Seq<char>,
    contract: Seq<char>,
    msg: Seq<char>,
    coins: Seq<ObjectsView>,
) -> MessageView {
    MessageView {
        url: "/cosmwasm.wasm.v1.MsgExecuteContract"@,
        message: seq![
            spec_string_field("sender"@, 1, sender),
            spec_string_field("contract"@, 2, contract),
            spec_bytes_field("msg"@, 3, msg),
            FieldView {
                kind: "Array"@,
                name: "funds"@,
                field_id: 5,
                value: ObjectsView::ArrayV { kind: "Array"@, elems: coins },
            },
        ],
    }
}

/// The views of the coins in a funds list, in their original order.
pub open spec fn coins_view(s: Seq<CoinObject>) -> Seq<ObjectsView> {
    s.map_values(|c: CoinObject| ObjectsView::CoinV { denom: c.denom@, amount: c.amount@ })
}

impl Clone for CoinObject {
    /// Clones preserve both fields exactly.
    fn clone(&self) -> (res: Self)
        ensures
            res == *self,
    {
        CoinObject { denom: self.denom.clone(), amount: self.amount.clone() }
    }
}

impl Message {
    /// Builds the contract-migration message.
    pub fn build_contract_migrate(
        sender: String,
        contract: String,
        code_id: u64,
        msg: String,
    ) -> (m: Message)
        ensures
            m@ == spec_contract_migrate(sender@, contract@, code_id as nat, msg@),
            wf_message(m@),
    {
        let mut fields: Vec<MesssageDetails> = Vec::new();
        fields.push(string_field("sender", 1, sender));
        fields.push(string_field("contract", 2, contract));
        fields.push(int_field("code_id", 3, u64_to_decimal(code_id)));
        fields.push(bytes_field("msg", 4, msg));
        let m = Message {
            url: "/cosmwasm.wasm.v1.MsgMigrateContract".to_string(),
            message: fields,
        };
        proof {
            let spec_m = spec_contract_migrate(sender@, contract@, code_id as nat, msg@);
            lemma_fields_view_index(m.message@);
            assert(m@.message =~= spec_m.message);
            assert(m@ =~= spec_m);
            lemma_contract_migrate_wf(sender@, contract@, code_id as nat, msg@);
        }
        m
    }

    /// Builds the contract-instantiation message.
    pub fn build_contract_instantiate(
        sender: String,
        admin: String,
        label: String,
        code_id: u64,
        msg: String,
    ) -> (m: Message)
        ensures
            m@ == spec_contract_instantiate(sender@, admin@, label@, code_id as nat, msg@),
            wf_message(m@),
    {
        let mut fields: Vec<MesssageDetails> = Vec::new();
        fields.push(string_field("sender", 1, sender));
        fields.push(string_field("admin", 2, admin));
        fields.push(int_field("code_id", 3, u64_to_decimal(code_id)));
        fields.push(string_field("label", 4, label));
        fields.push(bytes_field("msg", 5, msg));
        let m = Message {
            url: "/cosmwasm.wasm.v1.MsgInstantiateContract".to_string(),
            message: fields,
        };
        proof {
            let spec_m = spec_contract_instantiate(sender@, admin@, label@, code_id as nat, msg@);
            lemma_fields_view_index(m.message@);
            assert(m@.message =~= spec_m.message);
            assert(m@ =~= spec_m);
            lemma_contract_instantiate_wf(sender@, admin@, label@, code_id as nat, msg@);
        }
        m
    }

    /// Builds the contract-execution message; the funds keep their input
    /// order, and field id four stays absent on purpose.
    pub fn build_contract_execute(
        sender: String,
        contract: String,
        msg: String,
        funds: Vec<CoinObject>,
    ) -> (m: Message)
        ensures
            m@ == spec_contract_execute(sender@, contract@, msg@, coins_view(funds@)),
            wf_message(m@),
    {
        let mut elems: Vec<Objects> = Vec::new();
        let n = funds.len();
        let mut i: usize = 0;
        while i < n
            invariant
                i <= n,
                n == funds@.len(),
                elems@.len() == i,
                forall|j: int|
                    0 <= j < i ==> #[trigger] elems@[j] == Objects::Coin(funds@[j]),
            decreases n - i,
        {
            elems.push(Objects::Coin(funds[i].clone()));
            i += 1;
        }
        let ghost ev = elems@;

        let mut fields: Vec<MesssageDetails> = Vec::new();
        fields.push(string_field("sender", 1, sender));
        fields.push(string_field("contract", 2, contract));
        fields.push(bytes_field("msg", 3, msg));
        fields.push(MesssageDetails {
            kind: "Array".to_string(),
            name: "funds".to_string(),
            field_id: 5,
            value: Box::new(
                Objects::Array(
                    ArrayObject {
                        array: ArrayDetail { kind: "Array".to_string(), elems: elems },
                    },
                ),
            ),
        });
        let m = Message {
            url: "/cosmwasm.wasm.v1.MsgExecuteContract".to_string(),
            message: fields,
        };
        proof {
            let spec_m = spec_contract_execute(sender@, contract@, msg@, coins_view(funds@));
            lemma_objs_view_index(ev);
            assert(objs_view(ev) =~= coins_view(funds@));
            lemma_fields_view_index(m.message@);
            assert(m@.message =~~= spec_m.message);
            assert(m@ =~~= spec_m);
            lemma_contract_execute_wf(sender@, contract@, msg@, coins_view(funds@));
        }
        m
    }
}

/// Every migration tree is well formed.
pub proof fn lemma_contract_migrate_wf(
    sender: Seq<char>,
    contract: Seq<char>,
    code_id: nat,
    msg: Seq<char>,
)
    ensures
        wf_message(spec_contract_migrate(sender, contract, code_id, msg)),
{
    let s = spec_contract_migrate(sender, contract, code_id, msg).message;
    assert(wf_field(s[0]));
    assert(wf_field(s[1]));
    assert(wf_field(s[2]));
    assert(wf_field(s[3]));
    lemma_wf_fields_from_pointwise(s);
}

/// Every instantiation tree is well formed.
pub proof fn lemma_contract_instantiate_wf(
    sender: Seq<char>,
    admin: Seq<char>,
    label: Seq<char>,
    code_id: nat,
    msg: Seq<char>,
)
    ensures
        wf_message(spec_contract_instantiate(sender, admin, label, code_id, msg)),
{
    let s = spec_contract_instantiate(sender, admin, label, code_id, msg).message;
    assert(wf_field(s[0]));
    assert(wf_field(s[1]));
    assert(wf_field(s[2]));
    assert(wf_field(s[3]));
    assert(wf_field(s[4]));
    lemma_wf_fields_from_pointwise(s);
}

proof fn lemma_wf_values_from_pointwise(s: Seq<ObjectsView>)
    requires
        forall|i: int| 0 <= i < s.len() ==> #[trigger] wf_value(s[i]),
    ensures
        wf_values(s),
    decreases s.len(),
{
    if s.len() > 0 {
        let t = s.drop_first();
        assert forall|i: int| 0 <= i < t.len() implies #[trigger] wf_value(t[i]) by {
            assert(t[i] == s[i + 1]);
        }
        lemma_wf_values_from_pointwise(t);
        assert(wf_value(s[0]));
        assert(wf_values(s));
    }
}

/// Building the grant message twice from identical arguments yields
/// structurally equal trees: the builder's contract pins the result's view as
/// a function of the argument views alone, with no hidden dependency on
/// wall-clock time beyond the fixed timestamp fields.
pub proof fn lemma_build_authz_message_deterministic(
    m1: Message,
    m2: Message,
    granter: Seq<char>,
    grantee: Seq<char>,
    authorization: Seq<char>,
)
    requires
        m1@ == spec_authz_message(granter, grantee, authorization),
        m2@ == spec_authz_message(granter, grantee, authorization),
    ensures
        m1@ == m2@,
{
}

/// Building the revocation message twice from identical arguments yields
/// structurally equal trees.
pub proof fn lemma_build_revoke_message_deterministic(
    m1: Message,
    m2: Message,
    granter: Seq<char>,
    grantee: Seq<char>,
    msg_type_url: Seq<char>,
)
    requires
        m1@ == spec_revoke_message(granter, grantee, msg_type_url),
        m2@ == spec_revoke_message(granter, grantee, msg_type_url),
    ensures
        m1@ == m2@,
{
}

/// Building the migration message twice from identical arguments yields
/// structurally equal trees.
pub proof fn lemma_build_contract_migrate_deterministic(
    m1: Message,
    m2: Message,
    sender: Seq<char>,
    contract: Seq<char>,
    code_id: nat,
    msg: Seq<char>,
)
    requires
        m1@ == spec_contract_migrate(sender, contract, code_id, msg),
        m2@ == spec_contract_migrate(sender, contract, code_id, msg),
    ensures
        m1@ == m2@,
{
}

/// Building the execution message twice from identical arguments yields
/// structurally equal trees.
pub proof fn lemma_build_contract_execute_deterministic(
    m1: Message,
    m2: Message,
    sender: Seq<char>,
    contract: Seq<char>,
    msg: Seq<char>,
    coins: Seq<ObjectsView>,
)
    requires
        m1@ == spec_contract_execute(sender, contract, msg, coins),
        m2@ == spec_contract_execute(sender, contract, msg, coins),
    ensures
        m1@ == m2@,
{
}

/// Building the instantiation message twice from identical arguments yields
/// structurally equal trees.
pub proof fn lemma_build_contract_instantiate_deterministic(
    m1: Message,
    m2: Message,
    sender: Seq<char>,
    admin: Seq<char>,
    label: Seq<char>,
    code_id: nat,
    msg: Seq<char>,
)
    requires
        m1@ == spec_contract_instantiate(sender, admin, label, code_id, msg),
        m2@ == spec_contract_instantiate(sender, admin, label, code_id, msg),
    ensures
        m1@ == m2@,
{
}

/// Every execution tree whose funds are coin values is well formed.
pub proof fn lemma_contract_execute_wf(
    sender: Seq<char>,
    contract: Seq<char>,
    msg: Seq<char>,
    coins: Seq<ObjectsView>,
)
    requires
        forall|i: int| 0 <= i < coins.len() ==> #[trigger] coins[i] is CoinV,
    ensures
        wf_message(spec_contract_execute(sender, contract, msg, coins)),
{
    let s = spec_contract_execute(sender, contract, msg, coins).message;
    assert forall|i: int| 0 <= i < coins.len() implies #[trigger] wf_value(coins[i]) by {
        assert(coins[i] is CoinV);
    }
    lemma_wf_values_from_pointwise(coins);
    assert(wf_field(s[0]));
    assert(wf_field(s[1]));
    assert(wf_field(s[2]));
    assert(wf_field(s[3]));
    lemma_wf_fields_from_pointwise(s);
}

} // verus!
