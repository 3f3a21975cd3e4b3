//! What the handling of one message asks of the connection.

use core::cmp::Ordering;
use vstd::prelude::*;
use vstd::std_specs::cmp::{PartialEqSpecImpl, PartialOrdSpecImpl};
use vstd::string::*;

use crate::protocol::message::RawMessage;
use crate::protocol::serde::{be_bytes, encode_u16};
use crate::protocol::text::{join3, quoted, quoted_text};

verus! {

/// Why a connection is given up.
#[derive(Debug, PartialEq)]
pub enum WorkflowError {
    /// Message with unknown code.
    UnknownCode,
    ConnectionError,
    ProtocolError(String),
    Exception(String),
}

/// What the handling of one message asks of the connection.
#[derive(Debug, PartialEq)]
pub enum Workflow {
    Continue,
    Terminate(WorkflowError),
    SwitchProtocol(usize),
}

/// `WorkflowError` as contracts see it.
pub enum WorkflowErrorView {
    UnknownCode,
    ConnectionError,
    ProtocolError(Seq<char>),
    Exception(Seq<char>),
}

/// `Workflow` as contracts see it.
pub enum WorkflowView {
    Continue,
    Terminate(WorkflowErrorView),
    SwitchProtocol(usize),
}

impl View for WorkflowError {
    type V = WorkflowErrorView;

    open spec fn view(&self) -> WorkflowErrorView {
        match *self {
            WorkflowError::UnknownCode => WorkflowErrorView::UnknownCode,
            WorkflowError::ConnectionError => WorkflowErrorView::ConnectionError,
            WorkflowError::ProtocolError(s) => WorkflowErrorView::ProtocolError(s@),
            WorkflowError::Exception(s) => WorkflowErrorView::Exception(s@),
        }
    }
}

impl View for Workflow {
    type V = WorkflowView;

    open spec fn view(&self) -> WorkflowView {
        match *self {
            Workflow::Continue => WorkflowView::Continue,
            Workflow::Terminate(e) => WorkflowView::Terminate(e@),
            Workflow::SwitchProtocol(id) => WorkflowView::SwitchProtocol(id),
        }
    }
}

impl WorkflowErrorView {
    /// The error as it is displayed: the variant's name and, in brackets, its text in quotes.
    pub open spec fn text(self) -> Seq<char> {
        match self {
            WorkflowErrorView::UnknownCode => "UnknownCode"@,
            WorkflowErrorView::ConnectionError => "ConnectionError"@,
            WorkflowErrorView::ProtocolError(s) => "ProtocolError("@ + quoted_text(s) + ")"@,
            WorkflowErrorView::Exception(s) => "Exception("@ + quoted_text(s) + ")"@,
        }
    }
}

impl WorkflowError {
    /// The text that the error displays as.
    pub fn to_string(&self) -> (text: String)
        ensures
            text@ == self@.text(),
    {
        match self {
            WorkflowError::UnknownCode => "UnknownCode".to_owned(),
            WorkflowError::ConnectionError => "ConnectionError".to_owned(),
            WorkflowError::ProtocolError(s) => {
                let inner = quoted(s.as_str());
                join3("ProtocolError(", inner.as_str(), ")")
            },
            WorkflowError::Exception(s) => {
                let inner = quoted(s.as_str());
                join3("Exception(", inner.as_str(), ")")
            },
        }
    }
}

/// One stage of a connection: it takes each message that arrives.
pub trait Protocol {
    fn flow(&mut self, raw_message: RawMessage) -> Workflow;
}

/// A protocol version: major, minor, patch. Versions are ordered by major, then minor, then
/// patch.
#[derive(Debug, Clone, Copy)]
pub struct ProtocolVersion(pub u8, pub u8, pub u16);

impl PartialEq for ProtocolVersion {
    fn eq(&self, other: &Self) -> (r: bool) {
        self.0 == other.0 && self.1 == other.1 && self.2 == other.2
    }
}

impl PartialEqSpecImpl for ProtocolVersion {
    open spec fn obeys_eq_spec() -> bool {
        true
    }

    open spec fn eq_spec(&self, other: &Self) -> bool {
        self.0 == other.0 && self.1 == other.1 && self.2 == other.2
    }
}

impl PartialOrd for ProtocolVersion {
    fn partial_cmp(&self, other: &Self) -> (r: Option<Ordering>) {
        if self.0 < other.0 {
            Some(Ordering::Less)
        } else if self.0 > other.0 {
            Some(Ordering::Greater)
        } else if self.1 < other.1 {
            Some(Ordering::Less)
        } else if self.1 > other.1 {
            Some(Ordering::Greater)
        } else if self.2 < other.2 {
            Some(Ordering::Less)
        } else if self.2 > other.2 {
            Some(Ordering::Greater)
        } else {
            Some(Ordering::Equal)
        }
    }
}

impl PartialOrdSpecImpl for ProtocolVersion {
    open spec fn obeys_partial_cmp_spec() -> bool {
        true
    }

    open spec fn partial_cmp_spec(&self, other: &Self) -> Option<Ordering> {
        if self.0 < other.0 {
            Some(Ordering::Less)
        } else if self.0 > other.0 {
            Some(Ordering::Greater)
        } else if self.1 < other.1 {
            Some(Ordering::Less)
        } else if self.1 > other.1 {
            Some(Ordering::Greater)
        } else if self.2 < other.2 {
            Some(Ordering::Less)
        } else if self.2 > other.2 {
            Some(Ordering::Greater)
        } else {
            Some(Ordering::Equal)
        }
    }
}

impl ProtocolVersion {
    /// The version `v0.v1.v2`.
    pub fn new(v0: u8, v1: u8, v2: u16) -> (v: ProtocolVersion)
        ensures
            v == ProtocolVersion(v0, v1, v2),
    {
        ProtocolVersion(v0, v1, v2)
    }

    /// The four bytes of a version: major, minor, then the patch level most significant
    /// byte first.
    pub open spec fn exported(self) -> Seq<u8> {
        seq![self.0, self.1] + be_bytes(self.2 as nat, 2)
    }

    /// The version in four bytes.
    pub fn export(&self) -> (bytes: Vec<u8>)
        ensures
            bytes@ == self.exported(),
    {
        let patch: [u8; 2] = encode_u16(self.2);
        let mut bytes: Vec<u8> = vec![self.0, self.1];
        bytes.extend_from_slice(patch.as_slice());
        proof {
            assert(bytes@ =~= self.exported());
        }
        bytes
    }
}

} // verus!
