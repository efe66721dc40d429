//! The shape of a message on the wire: an object with `src`, `dest` and
//! `body`, where the body holds `msg_id`, `in_reply_to`, the payload's `type`
//! and the payload's own fields side by side.

use crate::json::{
    distinct_keys, lemma_member_push, lemma_push_keeps_distinct, list_value, member, number_value,
    object_value, pairs, parsed_text, text_value, trees, value_as_array, value_as_str,
    value_as_u64, value_from_text, value_get, value_is_null, value_is_object, value_to_text,
    value_tree, written_text, Json,
};
use crate::message::{
    names_view, Message, MessageBody, MessageBodyView, MessageView, Payload, PayloadKind,
    PayloadView,
};
use serde_json::Value;
use vstd::prelude::*;

verus! {

/// Why a text or a JSON value is no message.
#[derive(Debug, Clone, Copy, PartialEq, Eq, Structural)]
pub enum ParseError {
    /// The text is no JSON value.
    Syntax,
    /// A member that every message has is not there.
    MissingField,
    /// The body's `type` names no payload.
    UnknownType,
    /// A value has not the shape that its place asks for.
    Malformed,
}

impl ParseError {
    /// The diagnostic for this fault.
    pub open spec fn text(self) -> Seq<char> {
        match self {
            ParseError::Syntax => "the input is no JSON value"@,
            ParseError::MissingField => "a required field is missing"@,
            ParseError::UnknownType => "the body's type names no known payload"@,
            ParseError::Malformed => "a value has the wrong shape"@,
        }
    }

    /// The diagnostic for this fault.
    pub fn describe(&self) -> (s: String)
        ensures
            s@ == self.text(),
    {
        match self {
            ParseError::Syntax => String::from_str("the input is no JSON value"),
            ParseError::MissingField => String::from_str("a required field is missing"),
            ParseError::UnknownType => String::from_str("the body's type names no known payload"),
            ParseError::Malformed => String::from_str("a value has the wrong shape"),
        }
    }
}

/// The payload's `type` on the wire: the kind's name in snake case.
pub open spec fn tag_text(kind: PayloadKind) -> Seq<char> {
    match kind {
        PayloadKind::Echo => "echo"@,
        PayloadKind::EchoOk => "echo_ok"@,
        PayloadKind::Init => "init"@,
        PayloadKind::InitOk => "init_ok"@,
        PayloadKind::Generate => "generate"@,
        PayloadKind::GenerateOk => "generate_ok"@,
    }
}

/// The payload's `type` on the wire: the kind's name in snake case.
pub fn tag(kind: PayloadKind) -> (s: &'static str)
    ensures
        s@ == tag_text(kind),
{
    match kind {
        PayloadKind::Echo => "echo",
        PayloadKind::EchoOk => "echo_ok",
        PayloadKind::Init => "init",
        PayloadKind::InitOk => "init_ok",
        PayloadKind::Generate => "generate",
        PayloadKind::GenerateOk => "generate_ok",
    }
}

/// The texts in `names`, each as a JSON string.
pub open spec fn text_items(names: Seq<Seq<char>>) -> Seq<Json> {
    Seq::new(names.len(), |i: int| Json::Text(names[i]))
}

/// `members`, and after them `key` with the id, if there is one. An id that
/// is absent is left out, not written as null.
pub open spec fn with_id(
    members: Seq<(Seq<char>, Json)>,
    key: Seq<char>,
    id: Option<usize>,
) -> Seq<(Seq<char>, Json)> {
    match id {
        Some(n) => members.push((key, Json::Number(n as u64))),
        None => members,
    }
}

/// `members`, and after them the payload's `type` and its own fields.
pub open spec fn with_payload(
    members: Seq<(Seq<char>, Json)>,
    payload: PayloadView,
) -> Seq<(Seq<char>, Json)> {
    let tagged = members.push(("type"@, Json::Text(tag_text(payload.kind()))));
    match payload {
        PayloadView::Echo { echo } => tagged.push(("echo"@, Json::Text(echo))),
        PayloadView::EchoOk { echo } => tagged.push(("echo"@, Json::Text(echo))),
        PayloadView::Init { node_id, node_ids } => tagged.push(
            ("node_id"@, Json::Text(node_id)),
        ).push(("node_ids"@, Json::List(text_items(node_ids)))),
        PayloadView::InitOk => tagged,
        PayloadView::Generate => tagged,
        PayloadView::GenerateOk { id } => tagged.push(("id"@, Json::Text(id))),
    }
}

/// The members of a body on the wire, in the order in which they are written.
pub open spec fn body_members(body: MessageBodyView) -> Seq<(Seq<char>, Json)> {
    with_payload(
        with_id(with_id(Seq::empty(), "msg_id"@, body.msg_id), "in_reply_to"@, body.in_reply_to),
        body.payload,
    )
}

/// A message on the wire.
pub open spec fn wire_form(m: MessageView) -> Json {
    Json::Object(
        Seq::empty().push(("src"@, Json::Text(m.src))).push(
            ("dest"@, Json::Text(m.dest)),
        ).push(("body"@, Json::Object(body_members(m.body)))),
    )
}

/// The text under `key`, which has to be there.
pub open spec fn text_member(members: Seq<(Seq<char>, Json)>, key: Seq<char>) -> Result<
    Seq<char>,
    ParseError,
> {
    match member(members, key) {
        None => Err(ParseError::MissingField),
        Some(Json::Text(t)) => Ok(t),
        Some(_) => Err(ParseError::Malformed),
    }
}

/// The id under `key`: none where the member is absent or null.
pub open spec fn id_member(members: Seq<(Seq<char>, Json)>, key: Seq<char>) -> Result<
    Option<usize>,
    ParseError,
> {
    match member(members, key) {
        None => Ok(None),
        Some(Json::Null) => Ok(None),
        Some(Json::Number(n)) => if n <= usize::MAX {
            Ok(Some(n as usize))
        } else {
            Err(ParseError::Malformed)
        },
        Some(_) => Err(ParseError::Malformed),
    }
}

/// Whether every item is a JSON string.
pub open spec fn all_text(items: Seq<Json>) -> bool {
    forall|i: int| 0 <= i < items.len() ==> #[trigger] items[i] is Text
}

/// The texts of items that are JSON strings.
pub open spec fn texts(items: Seq<Json>) -> Seq<Seq<char>> {
    Seq::new(items.len(), |i: int| items[i]->Text_0)
}

/// The list of texts under `key`, which has to be there.
pub open spec fn text_list_member(members: Seq<(Seq<char>, Json)>, key: Seq<char>) -> Result<
    Seq<Seq<char>>,
    ParseError,
> {
    match member(members, key) {
        None => Err(ParseError::MissingField),
        Some(Json::List(items)) => if all_text(items) {
            Ok(texts(items))
        } else {
            Err(ParseError::Malformed)
        },
        Some(_) => Err(ParseError::Malformed),
    }
}

/// The kind that a `type` names, if it names one.
pub open spec fn kind_of_tag(t: Seq<char>) -> Option<PayloadKind> {
    if t == "echo"@ {
        Some(PayloadKind::Echo)
    } else if t == "echo_ok"@ {
        Some(PayloadKind::EchoOk)
    } else if t == "init"@ {
        Some(PayloadKind::Init)
    } else if t == "init_ok"@ {
        Some(PayloadKind::InitOk)
    } else if t == "generate"@ {
        Some(PayloadKind::Generate)
    } else if t == "generate_ok"@ {
        Some(PayloadKind::GenerateOk)
    } else {
        None
    }
}

/// The payload among the members of a body. Its `type` alone says which
/// fields are read; members that the payload does not have are passed over.
pub open spec fn read_payload(members: Seq<(Seq<char>, Json)>) -> Result<
    PayloadView,
    ParseError,
> {
    match text_member(members, "type"@) {
        Err(e) => Err(e),
        Ok(t) => match kind_of_tag(t) {
            None => Err(ParseError::UnknownType),
            Some(PayloadKind::Echo) => match text_member(members, "echo"@) {
                Ok(echo) => Ok(PayloadView::Echo { echo }),
                Err(e) => Err(e),
            },
            Some(PayloadKind::EchoOk) => match text_member(members, "echo"@) {
                Ok(echo) => Ok(PayloadView::EchoOk { echo }),
                Err(e) => Err(e),
            },
            Some(PayloadKind::Init) => match text_member(members, "node_id"@) {
                Err(e) => Err(e),
                Ok(node_id) => match text_list_member(members, "node_ids"@) {
                    Ok(node_ids) => Ok(PayloadView::Init { node_id, node_ids }),
                    Err(e) => Err(e),
                },
            },
            Some(PayloadKind::InitOk) => Ok(PayloadView::InitOk),
            Some(PayloadKind::Generate) => Ok(PayloadView::Generate),
            Some(PayloadKind::GenerateOk) => match text_member(members, "id"@) {
                Ok(id) => Ok(PayloadView::GenerateOk { id }),
                Err(e) => Err(e),
            },
        },
    }
}

/// The body that `members` hold: the two ids, then the payload.
pub open spec fn read_body(members: Seq<(Seq<char>, Json)>) -> Result<
    MessageBodyView,
    ParseError,
> {
    match id_member(members, "msg_id"@) {
        Err(e) => Err(e),
        Ok(msg_id) => match id_member(members, "in_reply_to"@) {
            Err(e) => Err(e),
            Ok(in_reply_to) => match read_payload(members) {
                Err(e) => Err(e),
                Ok(payload) => Ok(MessageBodyView { msg_id, in_reply_to, payload }),
            },
        },
    }
}

/// The body under `body`, which has to be there and to be an object.
pub open spec fn body_member(members: Seq<(Seq<char>, Json)>) -> Result<
    MessageBodyView,
    ParseError,
> {
    match member(members, "body"@) {
        None => Err(ParseError::MissingField),
        Some(Json::Object(inner)) => read_body(inner),
        Some(_) => Err(ParseError::Malformed),
    }
}

/// The message that `j` holds, or why it holds none. The members are read in
/// the order `src`, `dest`, `body`, and the first fault found is the one
/// reported.
pub open spec fn read_message(j: Json) -> Result<MessageView, ParseError> {
    match j {
        Json::Object(members) => match text_member(members, "src"@) {
            Err(e) => Err(e),
            Ok(src) => match text_member(members, "dest"@) {
                Err(e) => Err(e),
                Ok(dest) => match body_member(members) {
                    Err(e) => Err(e),
                    Ok(body) => Ok(MessageView { src, dest, body }),
                },
            },
        },
        _ => Err(ParseError::Malformed),
    }
}

/// The names that the wire uses differ from one another: each has the length
/// and the first character stated here.
pub proof fn lemma_wire_names()
    ensures
        "src"@.len() == 3,
        "dest"@.len() == 4 && "dest"@[0] == 'd',
        "body"@.len() == 4 && "body"@[0] == 'b',
        "type"@.len() == 4 && "type"@[0] == 't',
        "echo"@.len() == 4 && "echo"@[0] == 'e',
        "init"@.len() == 4 && "init"@[0] == 'i',
        "msg_id"@.len() == 6,
        "in_reply_to"@.len() == 11 && "in_reply_to"@[0] == 'i',
        "generate_ok"@.len() == 11 && "generate_ok"@[0] == 'g',
        "node_id"@.len() == 7 && "node_id"@[0] == 'n',
        "echo_ok"@.len() == 7 && "echo_ok"@[0] == 'e',
        "init_ok"@.len() == 7 && "init_ok"@[0] == 'i',
        "node_ids"@.len() == 8 && "node_ids"@[0] == 'n',
        "generate"@.len() == 8 && "generate"@[0] == 'g',
        "id"@.len() == 2,
{
    reveal_strlit("src");
    reveal_strlit("dest");
    reveal_strlit("body");
    reveal_strlit("type");
    reveal_strlit("echo");
    reveal_strlit("init");
    reveal_strlit("msg_id");
    reveal_strlit("in_reply_to");
    reveal_strlit("generate_ok");
    reveal_strlit("node_id");
    reveal_strlit("echo_ok");
    reveal_strlit("init_ok");
    reveal_strlit("node_ids");
    reveal_strlit("generate");
    reveal_strlit("id");
}

/// A kind is the one that its own tag names.
pub proof fn lemma_tag_names_its_kind(kind: PayloadKind)
    ensures
        kind_of_tag(tag_text(kind)) == Some(kind),
{
    lemma_wire_names();
}

/// What was written as a payload is read back as the same payload, whatever
/// stood before it, as long as that held no member named like one of the
/// payload's.
proof fn lemma_payload_round_trip(members: Seq<(Seq<char>, Json)>, payload: PayloadView)
    ensures
        read_payload(with_payload(members, payload)) == Ok::<PayloadView, ParseError>(payload),
        member(with_payload(members, payload), "msg_id"@) == member(members, "msg_id"@),
        member(with_payload(members, payload), "in_reply_to"@) == member(members, "in_reply_to"@),
{
    broadcast use lemma_member_push;

    lemma_wire_names();
    lemma_tag_names_its_kind(payload.kind());
    let written = with_payload(members, payload);
    assert(text_member(written, "type"@) == Ok::<Seq<char>, ParseError>(tag_text(payload.kind())));
    match payload {
        PayloadView::Init { node_id, node_ids } => {
            let items = text_items(node_ids);
            assert(all_text(items));
            assert(texts(items) =~= node_ids);
        },
        _ => {},
    }
}

/// Round trip: what was written as a message is read back as the message
/// that was written.
pub proof fn lemma_round_trip(m: MessageView)
    ensures
        read_message(wire_form(m)) == Ok::<MessageView, ParseError>(m),
{
    broadcast use lemma_member_push;

    lemma_wire_names();
    let none = Seq::<(Seq<char>, Json)>::empty();
    let ids = with_id(with_id(none, "msg_id"@, m.body.msg_id), "in_reply_to"@, m.body.in_reply_to);
    lemma_payload_round_trip(ids, m.body.payload);
    assert(member(none, "msg_id"@) is None);
    assert(member(none, "in_reply_to"@) is None);
    assert(id_member(ids, "msg_id"@) == Ok::<Option<usize>, ParseError>(m.body.msg_id)) by {
        if m.body.msg_id is Some {
            let n: usize = m.body.msg_id.unwrap();
            assert((n as u64) as usize == n);
        }
    }
    assert(id_member(ids, "in_reply_to"@) == Ok::<Option<usize>, ParseError>(m.body.in_reply_to))
        by {
        if m.body.in_reply_to is Some {
            let n: usize = m.body.in_reply_to.unwrap();
            assert((n as u64) as usize == n);
        }
    }
    assert(read_body(body_members(m.body)) == Ok::<MessageBodyView, ParseError>(m.body));
}

fn put(members: &mut Vec<(String, Value)>, key: &str, value: Value)
    requires
        distinct_keys(pairs(old(members)@)),
        member(pairs(old(members)@), key@) is None,
    ensures
        pairs(final(members)@) == pairs(old(members)@).push((key@, value_tree(value))),
        distinct_keys(pairs(final(members)@)),
{
    members.push((String::from_str(key), value));
    proof {
        assert(pairs(members@) =~= pairs(old(members)@).push((key@, value_tree(value))));
        lemma_push_keeps_distinct(pairs(old(members)@), key@, value_tree(value));
    }
}

fn put_id(members: &mut Vec<(String, Value)>, key: &str, id: Option<usize>)
    requires
        distinct_keys(pairs(old(members)@)),
        member(pairs(old(members)@), key@) is None,
    ensures
        pairs(final(members)@) == with_id(pairs(old(members)@), key@, id),
        distinct_keys(pairs(final(members)@)),
{
    match id {
        Some(n) => put(members, key, number_value(n as u64)),
        None => {},
    }
}

fn text_list(names: &Vec<String>) -> (list: Value)
    ensures
        value_tree(list) == Json::List(text_items(names_view(names@))),
{
    let mut items: Vec<Value> = Vec::new();
    let mut i: usize = 0;
    while i < names.len()
        invariant
            i <= names@.len(),
            items@.len() == i,
            forall|k: int| 0 <= k < i ==> value_tree(#[trigger] items@[k]) == Json::Text(names@[k]@),
        decreases names@.len() - i,
    {
        items.push(text_value(names[i].clone()));
        i = i + 1;
    }
    assert(trees(items@) =~= text_items(names_view(names@)));
    list_value(items)
}

/// Writes a message as a JSON value of the wire's shape. Read back, the
/// value gives the message again.
pub fn encode(m: &Message) -> (v: Value)
    ensures
        value_tree(v) == wire_form(m@),
        read_message(value_tree(v)) == Ok::<MessageView, ParseError>(m@),
{
    broadcast use lemma_member_push;

    proof {
        lemma_wire_names();
        lemma_round_trip(m@);
    }
    let mut body: Vec<(String, Value)> = Vec::new();
    assert(pairs(body@) =~= Seq::empty());
    put_id(&mut body, "msg_id", m.body.msg_id);
    put_id(&mut body, "in_reply_to", m.body.in_reply_to);
    put(&mut body, "type", text_value(String::from_str(tag(m.body.payload.kind()))));
    match &m.body.payload {
        Payload::Echo { echo } => put(&mut body, "echo", text_value(echo.clone())),
        Payload::EchoOk { echo } => put(&mut body, "echo", text_value(echo.clone())),
        Payload::Init { node_id, node_ids } => {
            put(&mut body, "node_id", text_value(node_id.clone()));
            put(&mut body, "node_ids", text_list(node_ids));
        },
        Payload::InitOk {  } => {},
        Payload::Generate {  } => {},
        Payload::GenerateOk { id } => put(&mut body, "id", text_value(id.clone())),
    }
    assert(pairs(body@) == body_members(m@.body));
    let mut top: Vec<(String, Value)> = Vec::new();
    assert(pairs(top@) =~= Seq::empty());
    put(&mut top, "src", text_value(m.src.clone()));
    put(&mut top, "dest", text_value(m.dest.clone()));
    put(&mut top, "body", object_value(body));
    object_value(top)
}

/// Writes a message as one line's text, without the line's end: the text
/// that `serde_json` writes for the message's wire form, and `None` exactly
/// where `serde_json` refuses to write that form.
pub fn serialize(m: &Message) -> (text: Option<String>)
    ensures
        match written_text(wire_form(m@)) {
            Some(t) => text matches Some(s) && s@ == t,
            None => text is None,
        },
{
    let v = encode(m);
    match value_to_text(&v) {
        Ok(s) => Some(s),
        Err(_) => None,
    }
}

/// Writes a message as one line of output: its text, then the line's end,
/// and `None` exactly where `serialize` gives none.
pub fn output_line(m: &Message) -> (text: Option<String>)
    ensures
        match written_text(wire_form(m@)) {
            Some(t) => text matches Some(s) && s@ == t + seq!['\n'],
            None => text is None,
        },
{
    proof {
        reveal_strlit("\n");
    }
    match serialize(m) {
        Some(mut s) => {
            s.append("\n");
            assert(s@ =~= written_text(wire_form(m@)).unwrap() + seq!['\n']);
            Some(s)
        },
        None => None,
    }
}

fn read_text(v: &Value, key: &str) -> (r: Result<String, ParseError>)
    requires
        value_tree(*v) is Object,
    ensures
        match text_member(value_tree(*v)->Object_0, key@) {
            Ok(t) => r matches Ok(s) && s@ == t,
            Err(e) => r == Err::<String, ParseError>(e),
        },
{
    match value_get(v, key) {
        None => Err(ParseError::MissingField),
        Some(found) => match value_as_str(found) {
            Some(s) => Ok(String::from_str(s)),
            None => Err(ParseError::Malformed),
        },
    }
}

fn read_id(v: &Value, key: &str) -> (r: Result<Option<usize>, ParseError>)
    requires
        value_tree(*v) is Object,
    ensures
        r == id_member(value_tree(*v)->Object_0, key@),
{
    match value_get(v, key) {
        None => Ok(None),
        Some(found) => if value_is_null(found) {
            Ok(None)
        } else {
            match value_as_u64(found) {
                Some(n) => if n <= usize::MAX as u64 {
                    Ok(Some(n as usize))
                } else {
                    Err(ParseError::Malformed)
                },
                None => Err(ParseError::Malformed),
            }
        },
    }
}

fn read_text_list(v: &Value, key: &str) -> (r: Result<Vec<String>, ParseError>)
    requires
        value_tree(*v) is Object,
    ensures
        match text_list_member(value_tree(*v)->Object_0, key@) {
            Ok(l) => r matches Ok(names) && names_view(names@) == l,
            Err(e) => r == Err::<Vec<String>, ParseError>(e),
        },
{
    match value_get(v, key) {
        None => Err(ParseError::MissingField),
        Some(found) => match value_as_array(found) {
            None => Err(ParseError::Malformed),
            Some(items) => {
                let ghost seen = trees(items@);
                let mut names: Vec<String> = Vec::new();
                let mut i: usize = 0;
                while i < items.len()
                    invariant
                        i <= items@.len(),
                        seen == trees(items@),
                        value_tree(*v) is Object,
                        member(value_tree(*v)->Object_0, key@) == Some(Json::List(seen)),
                        names@.len() == i,
                        forall|k: int| 0 <= k < i ==> #[trigger] seen[k] is Text,
                        forall|k: int| 0 <= k < i ==> (#[trigger] names@[k])@ == seen[k]->Text_0,
                    decreases items@.len() - i,
                {
                    match value_as_str(&items[i]) {
                        Some(s) => {
                            names.push(String::from_str(s));
                        },
                        None => {
                            assert(!(seen[i as int] is Text));
                            return Err(ParseError::Malformed);
                        },
                    }
                    i = i + 1;
                }
                assert(all_text(seen));
                assert(names_view(names@) =~= texts(seen));
                Ok(names)
            },
        },
    }
}

fn same_text(a: &String, b: &str) -> (same: bool)
    ensures
        same == (a@ == b@),
{
    let other = String::from_str(b);
    *a == other
}

/// The kind that a `type` names, if it names one.
pub fn kind_named(t: &String) -> (kind: Option<PayloadKind>)
    ensures
        kind == kind_of_tag(t@),
{
    if same_text(t, "echo") {
        Some(PayloadKind::Echo)
    } else if same_text(t, "echo_ok") {
        Some(PayloadKind::EchoOk)
    } else if same_text(t, "init") {
        Some(PayloadKind::Init)
    } else if same_text(t, "init_ok") {
        Some(PayloadKind::InitOk)
    } else if same_text(t, "generate") {
        Some(PayloadKind::Generate)
    } else if same_text(t, "generate_ok") {
        Some(PayloadKind::GenerateOk)
    } else {
        None
    }
}

fn decode_payload(v: &Value) -> (r: Result<Payload, ParseError>)
    requires
        value_tree(*v) is Object,
    ensures
        match read_payload(value_tree(*v)->Object_0) {
            Ok(p) => r matches Ok(payload) && payload@ == p,
            Err(e) => r == Err::<Payload, ParseError>(e),
        },
{
    let t = match read_text(v, "type") {
        Ok(t) => t,
        Err(e) => {
            return Err(e);
        },
    };
    match kind_named(&t) {
        None => Err(ParseError::UnknownType),
        Some(PayloadKind::Echo) => match read_text(v, "echo") {
            Ok(echo) => Ok(Payload::Echo { echo }),
            Err(e) => Err(e),
        },
        Some(PayloadKind::EchoOk) => match read_text(v, "echo") {
            Ok(echo) => Ok(Payload::EchoOk { echo }),
            Err(e) => Err(e),
        },
        Some(PayloadKind::Init) => match read_text(v, "node_id") {
            Err(e) => Err(e),
            Ok(node_id) => match read_text_list(v, "node_ids") {
                Ok(node_ids) => Ok(Payload::Init { node_id, node_ids }),
                Err(e) => Err(e),
            },
        },
        Some(PayloadKind::InitOk) => Ok(Payload::InitOk {  }),
        Some(PayloadKind::Generate) => Ok(Payload::Generate {  }),
        Some(PayloadKind::GenerateOk) => match read_text(v, "id") {
            Ok(id) => Ok(Payload::GenerateOk { id }),
            Err(e) => Err(e),
        },
    }
}

fn decode_body(v: &Value) -> (r: Result<MessageBody, ParseError>)
    requires
        value_tree(*v) is Object,
    ensures
        match read_body(value_tree(*v)->Object_0) {
            Ok(b) => r matches Ok(body) && body@ == b,
            Err(e) => r == Err::<MessageBody, ParseError>(e),
        },
{
    let msg_id = match read_id(v, "msg_id") {
        Ok(id) => id,
        Err(e) => {
            return Err(e);
        },
    };
    let in_reply_to = match read_id(v, "in_reply_to") {
        Ok(id) => id,
        Err(e) => {
            return Err(e);
        },
    };
    match decode_payload(v) {
        Ok(payload) => Ok(MessageBody { msg_id, in_reply_to, payload }),
        Err(e) => Err(e),
    }
}

/// Reads a message from a JSON value of the wire's shape: the message that
/// the value holds, or the first fault found in it.
pub fn decode(v: &Value) -> (r: Result<Message, ParseError>)
    ensures
        match read_message(value_tree(*v)) {
            Ok(m) => r matches Ok(message) && message@ == m,
            Err(e) => r == Err::<Message, ParseError>(e),
        },
{
    if !value_is_object(v) {
        return Err(ParseError::Malformed);
    }
    let src = match read_text(v, "src") {
        Ok(t) => t,
        Err(e) => {
            return Err(e);
        },
    };
    let dest = match read_text(v, "dest") {
        Ok(t) => t,
        Err(e) => {
            return Err(e);
        },
    };
    match value_get(v, "body") {
        None => Err(ParseError::MissingField),
        Some(inner) => if value_is_object(inner) {
            match decode_body(inner) {
                Ok(body) => Ok(Message { src, dest, body }),
                Err(e) => Err(e),
            }
        } else {
            Err(ParseError::Malformed)
        },
    }
}

/// What a text holds: the message of the JSON value that the text stands
/// for, a fault in that value, or that the text is no JSON value.
pub open spec fn read_text_message(text: Seq<char>) -> Result<MessageView, ParseError> {
    match parsed_text(text) {
        None => Err(ParseError::Syntax),
        Some(tree) => read_message(tree),
    }
}

/// Reads a message from the text of one JSON value.
pub fn parse(text: &str) -> (r: Result<Message, ParseError>)
    ensures
        match read_text_message(text@) {
            Ok(m) => r matches Ok(message) && message@ == m,
            Err(e) => r == Err::<Message, ParseError>(e),
        },
{
    match value_from_text(text) {
        Ok(v) => decode(&v),
        Err(_) => Err(ParseError::Syntax),
    }
}

} // verus!
