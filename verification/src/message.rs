//! Application-level message envelope: a sender identifier together with
//! either a bare presence ping or a payload-carrying data message.
//!
//! A data message stores its payload in a fixed 64-byte buffer together with
//! an authoritative `length`; bytes past `length` are padding and carry no
//! meaning. The mathematical model [`MessageModel`] therefore keeps only the
//! meaningful bytes, so padding never shows up in specifications.

use vstd::prelude::*;

verus! {

/// Kind of a link-layer message, together with its variant-specific fields.
#[derive(Clone, Copy, PartialEq, Eq, Debug)]
pub enum MessageType {
    /// A data message addressed to one destination device. `length` is
    /// authoritative; `data` bytes at index `length` and beyond are padding.
    Normal { destination_uid: u16, length: u8, data: [u8; 64] },
    /// A bare presence announcement.
    Ping,
}

/// A link-layer message: who sent it, and what it carries.
#[derive(Clone, Copy, PartialEq, Eq, Debug)]
pub struct Message {
    pub sender_uid: u16,
    pub message_type: MessageType,
}

/// Model of a message kind: a data payload keeps exactly its meaningful bytes.
pub enum KindModel {
    Ping,
    Data { destination: u16, payload: Seq<u8> },
}

/// Mathematical model of a [`Message`], free of padding.
pub struct MessageModel {
    pub sender: u16,
    pub kind: KindModel,
}

impl MessageModel {
    /// A model is well formed when its payload fits the 64-byte buffer.
    pub open spec fn wf(self) -> bool {
        match self.kind {
            KindModel::Ping => true,
            KindModel::Data { payload, .. } => payload.len() <= 64,
        }
    }
}

impl MessageType {
    /// The stored length fits the buffer and every padding byte is zero, so
    /// that equal models mean equal values.
    pub open spec fn wf(self) -> bool {
        match self {
            MessageType::Normal { length, data, .. } => {
                &&& length <= 64
                &&& forall|i: int| length <= i < 64 ==> data@[i] == 0u8
            },
            MessageType::Ping => true,
        }
    }
}

impl Message {
    pub open spec fn wf(self) -> bool {
        self.message_type.wf()
    }
}

impl View for Message {
    type V = MessageModel;

    open spec fn view(&self) -> MessageModel {
        MessageModel {
            sender: self.sender_uid,
            kind: match self.message_type {
                MessageType::Ping => KindModel::Ping,
                MessageType::Normal { destination_uid, length, data } => KindModel::Data {
                    destination: destination_uid,
                    payload: data@.take(length as int),
                },
            },
        }
    }
}

/// The meaningful payload a message carries; a ping carries none.
pub open spec fn payload_of(m: MessageModel) -> Seq<u8> {
    match m.kind {
        KindModel::Ping => Seq::empty(),
        KindModel::Data { payload, .. } => payload,
    }
}

impl Message {
    /// Copies the meaningful payload bytes out, without the padding.
    pub fn payload_vec(&self) -> (r: Vec<u8>)
        requires
            self.wf(),
        ensures
            r@ == payload_of(self@),
    {
        match &self.message_type {
            MessageType::Ping => Vec::new(),
            MessageType::Normal { length, data, .. } => {
                let len = *length as usize;
                let mut r: Vec<u8> = Vec::new();
                let mut i: usize = 0;
                while i < len
                    invariant
                        i <= len,
                        len <= 64,
                        r@.len() == i,
                        forall|j: int| 0 <= j < i ==> r@[j] == data@[j],
                    decreases len - i,
                {
                    r.push(data[i]);
                    i = i + 1;
                }
                proof {
                    assert(r@ =~= data@.take(len as int));
                }
                r
            },
        }
    }
}

/// Builds messages stamped with one device's own identifier.
pub struct MessageBuilder {
    sender_uid: u16,
}

impl MessageBuilder {
    /// The identifier stamped on every built message.
    pub closed spec fn sender(self) -> u16 {
        self.sender_uid
    }

    pub fn new(sender_uid: u16) -> (r: Self)
        ensures
            r.sender() == sender_uid,
    {
        MessageBuilder { sender_uid }
    }

    pub fn ping(&self) -> (m: Message)
        ensures
            m@ == (MessageModel { sender: self.sender(), kind: KindModel::Ping }),
            m.wf(),
    {
        Message { sender_uid: self.sender_uid, message_type: MessageType::Ping }
    }

    /// Builds a data message, copying `payload` into the fixed buffer and
    /// zero-filling the padding.
    pub fn normal(&self, destination_uid: u16, payload: &[u8]) -> (m: Message)
        requires
            payload@.len() <= 64,
        ensures
            m@ == (MessageModel {
                sender: self.sender(),
                kind: KindModel::Data { destination: destination_uid, payload: payload@ },
            }),
            m.wf(),
    {
        let len = payload.len();
        let mut data = [0u8; 64];
        let mut i: usize = 0;
        while i < len
            invariant
                i <= len,
                len == payload@.len() <= 64,
                forall|j: int| 0 <= j < i ==> data@[j] == payload@[j],
                forall|j: int| i <= j < 64 ==> data@[j] == 0u8,
            decreases len - i,
        {
            data[i] = payload[i];
            i = i + 1;
        }
        let m = Message {
            sender_uid: self.sender_uid,
            message_type: MessageType::Normal { destination_uid, length: len as u8, data },
        };
        proof {
            assert(data@.take(len as int) =~= payload@);
        }
        m
    }
}

} // verus!
