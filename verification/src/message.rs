//! The protocol's messages: an envelope, a body with its correlation fields,
//! and a closed set of payloads.

use vstd::prelude::*;

verus! {

/// What a message carries. Every `..Ok` payload answers the payload of the
/// same name without the suffix, and nothing else.
#[derive(Debug, Clone, PartialEq, Eq)]
pub enum Payload {
    Echo { echo: String },
    EchoOk { echo: String },
    Init { node_id: String, node_ids: Vec<String> },
    InitOk {},
    Generate {},
    GenerateOk { id: String },
}

/// The correlation fields and the payload of a message.
#[derive(Debug, Clone, PartialEq, Eq)]
pub struct MessageBody {
    pub msg_id: Option<usize>,
    pub in_reply_to: Option<usize>,
    pub payload: Payload,
}

/// An envelope: who sent it, whom it is for, and the body.
#[derive(Debug, Clone, PartialEq, Eq)]
pub struct Message {
    pub src: String,
    pub dest: String,
    pub body: MessageBody,
}

/// A payload's kind, without its fields.
#[derive(Debug, Clone, Copy, PartialEq, Eq, Structural)]
pub enum PayloadKind {
    Echo,
    EchoOk,
    Init,
    InitOk,
    Generate,
    GenerateOk,
}

/// A list of names, each as a sequence of characters.
pub open spec fn names_view(names: Seq<String>) -> Seq<Seq<char>> {
    Seq::new(names.len(), |i: int| names[i]@)
}

/// A payload as a mathematical value.
pub ghost enum PayloadView {
    Echo { echo: Seq<char> },
    EchoOk { echo: Seq<char> },
    Init { node_id: Seq<char>, node_ids: Seq<Seq<char>> },
    InitOk,
    Generate,
    GenerateOk { id: Seq<char> },
}

/// A body as a mathematical value.
pub ghost struct MessageBodyView {
    pub msg_id: Option<usize>,
    pub in_reply_to: Option<usize>,
    pub payload: PayloadView,
}

/// A message as a mathematical value.
pub ghost struct MessageView {
    pub src: Seq<char>,
    pub dest: Seq<char>,
    pub body: MessageBodyView,
}

impl PayloadView {
    pub open spec fn kind(self) -> PayloadKind {
        match self {
            PayloadView::Echo { .. } => PayloadKind::Echo,
            PayloadView::EchoOk { .. } => PayloadKind::EchoOk,
            PayloadView::Init { .. } => PayloadKind::Init,
            PayloadView::InitOk => PayloadKind::InitOk,
            PayloadView::Generate => PayloadKind::Generate,
            PayloadView::GenerateOk { .. } => PayloadKind::GenerateOk,
        }
    }
}

impl PayloadKind {
    /// Whether a node answers a payload of this kind. The `..Ok` kinds are
    /// answers themselves, and no node expects one.
    pub open spec fn is_request(self) -> bool {
        self == PayloadKind::Echo || self == PayloadKind::Init || self == PayloadKind::Generate
    }

    /// The kind's name as diagnostics spell it.
    pub open spec fn name_text(self) -> Seq<char> {
        match self {
            PayloadKind::Echo => "Echo"@,
            PayloadKind::EchoOk => "EchoOk"@,
            PayloadKind::Init => "Init"@,
            PayloadKind::InitOk => "InitOk"@,
            PayloadKind::Generate => "Generate"@,
            PayloadKind::GenerateOk => "GenerateOk"@,
        }
    }

    /// The kind's name as diagnostics spell it.
    pub fn name(&self) -> (s: &'static str)
        ensures
            s@ == self.name_text(),
    {
        match self {
            PayloadKind::Echo => "Echo",
            PayloadKind::EchoOk => "EchoOk",
            PayloadKind::Init => "Init",
            PayloadKind::InitOk => "InitOk",
            PayloadKind::Generate => "Generate",
            PayloadKind::GenerateOk => "GenerateOk",
        }
    }

    /// Whether a node answers a payload of this kind.
    pub fn expects_reply(&self) -> (b: bool)
        ensures
            b == self.is_request(),
    {
        match self {
            PayloadKind::Echo => true,
            PayloadKind::Init => true,
            PayloadKind::Generate => true,
            PayloadKind::EchoOk => false,
            PayloadKind::InitOk => false,
            PayloadKind::GenerateOk => false,
        }
    }
}

impl View for Payload {
    type V = PayloadView;

    open spec fn view(&self) -> PayloadView {
        match self {
            Payload::Echo { echo } => PayloadView::Echo { echo: echo@ },
            Payload::EchoOk { echo } => PayloadView::EchoOk { echo: echo@ },
            Payload::Init { node_id, node_ids } => PayloadView::Init {
                node_id: node_id@,
                node_ids: names_view(node_ids@),
            },
            Payload::InitOk {  } => PayloadView::InitOk,
            Payload::Generate {  } => PayloadView::Generate,
            Payload::GenerateOk { id } => PayloadView::GenerateOk { id: id@ },
        }
    }
}

impl View for MessageBody {
    type V = MessageBodyView;

    open spec fn view(&self) -> MessageBodyView {
        MessageBodyView {
            msg_id: self.msg_id,
            in_reply_to: self.in_reply_to,
            payload: self.payload@,
        }
    }
}

impl View for Message {
    type V = MessageView;

    open spec fn view(&self) -> MessageView {
        MessageView { src: self.src@, dest: self.dest@, body: self.body@ }
    }
}

impl Payload {
    /// The payload's kind.
    pub fn kind(&self) -> (k: PayloadKind)
        ensures
            k == self@.kind(),
    {
        match self {
            Payload::Echo { .. } => PayloadKind::Echo,
            Payload::EchoOk { .. } => PayloadKind::EchoOk,
            Payload::Init { .. } => PayloadKind::Init,
            Payload::InitOk {  } => PayloadKind::InitOk,
            Payload::Generate {  } => PayloadKind::Generate,
            Payload::GenerateOk { .. } => PayloadKind::GenerateOk,
        }
    }
}

} // verus!
