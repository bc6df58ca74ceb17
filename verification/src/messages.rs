//! The wire-level message pair the agent produces and consumes: a block
//! request carrying locators and an echoed request identifier, and its
//! reply carrying hashes or block components. Encoding these messages to
//! bytes is the transport's business, not this subsystem's.

use vstd::prelude::*;
use crate::block::BlockComponents;
use crate::hashes::Blake2bHash;

verus! {

/// The most locators a block request may carry.
pub const MAX_LOCATORS: usize = 128;

/// The most hashes a reply may carry.
pub const MAX_HASHES: usize = 1000;

/// The most objects a reply may carry.
pub const MAX_OBJECTS: usize = 1000;

/// A reply's payload: bare hashes, or the objects themselves.
#[derive(Clone, Debug)]
pub enum Objects<T> {
    Hashes(Vec<Blake2bHash>),
    Objects(Vec<T>),
}

impl<T> Objects<T> {
    pub fn with_objects(objects: Vec<T>) -> (r: Self)
        ensures
            r == Objects::<T>::Objects(objects),
    {
        Objects::Objects(objects)
    }

    pub fn with_hashes(hashes: Vec<Blake2bHash>) -> (r: Self)
        ensures
            r == Objects::<T>::Hashes(hashes),
    {
        Objects::Hashes(hashes)
    }
}

/// A payload together with the identifier that correlates it to the
/// request it answers.
#[derive(Clone, Debug)]
pub struct RequestResponse<T> {
    pub msg: T,
    pub request_identifier: u32,
}

impl<T> RequestResponse<T> {
    pub fn new(msg: T, request_identifier: u32) -> (r: Self)
        ensures
            r.msg == msg,
            r.request_identifier == request_identifier,
    {
        RequestResponse { msg, request_identifier }
    }

    pub fn request_identifier(msg: &RequestResponse<T>) -> (r: u32)
        ensures
            r == msg.request_identifier,
    {
        msg.request_identifier
    }
}

/// Which blocks a block request asks for.
#[derive(Clone, Copy, Debug, PartialEq, Eq, Structural)]
pub enum RequestBlocksFilter {
    All,
    MacroOnly,
}

/// A request for a range of blocks: the requester's chain-position hashes,
/// a cap on how many blocks to return, and a filter.
#[derive(Clone, Debug)]
pub struct RequestBlocksMessage {
    pub locators: Vec<Blake2bHash>,
    pub max_blocks: u16,
    pub filter: RequestBlocksFilter,
}

impl RequestBlocksMessage {
    pub fn new(
        locators: Vec<Blake2bHash>,
        max_blocks: u16,
        filter: RequestBlocksFilter,
        request_identifier: u32,
    ) -> (r: Message)
        requires
            locators@.len() <= MAX_LOCATORS,
        ensures
            r matches Message::RequestBlocks(rr) && rr.msg.locators == locators
                && rr.msg.max_blocks == max_blocks && rr.msg.filter == filter
                && rr.request_identifier == request_identifier,
    {
        Message::RequestBlocks(
            Box::new(
                RequestResponse::new(
                    RequestBlocksMessage { locators, max_blocks, filter },
                    request_identifier,
                ),
            ),
        )
    }
}

/// Whether a legacy block walk runs forward or backward from the locators.
#[derive(Clone, Copy, Debug, PartialEq, Eq, Structural)]
pub enum GetBlocksDirection {
    Forward,
    Backward,
}

/// The legacy block request, kept for peers of the older protocol: it has
/// no request identifier and names a direction instead of a filter.
#[derive(Clone, Debug)]
pub struct GetBlocksMessage {
    pub locators: Vec<Blake2bHash>,
    pub max_inv_size: u16,
    pub direction: GetBlocksDirection,
}

impl GetBlocksMessage {
    pub fn new(
        locators: Vec<Blake2bHash>,
        max_inv_size: u16,
        direction: GetBlocksDirection,
    ) -> (r: Message)
        requires
            locators@.len() <= MAX_LOCATORS,
        ensures
            r matches Message::GetBlocks(m) && m.locators == locators && m.max_inv_size
                == max_inv_size && m.direction == direction,
    {
        Message::GetBlocks(Box::new(GetBlocksMessage { locators, max_inv_size, direction }))
    }
}

/// A payload with an identifier that an older peer may have omitted.
#[derive(Clone, Debug)]
pub struct CompatibleRequestResponse<T> {
    pub msg: T,
    pub request_identifier: Option<u32>,
}

impl<T> CompatibleRequestResponse<T> {
    pub fn new(msg: T, request_identifier: Option<u32>) -> (r: Self)
        ensures
            r.msg == msg,
            r.request_identifier == request_identifier,
    {
        CompatibleRequestResponse { msg, request_identifier }
    }

    pub fn request_identifier(msg: &CompatibleRequestResponse<T>) -> (r: Option<u32>)
        ensures
            r == msg.request_identifier,
    {
        msg.request_identifier
    }
}

/// The messages this subsystem sends or routes.
#[derive(Clone, Debug)]
pub enum Message {
    GetBlocks(Box<GetBlocksMessage>),
    RequestBlocks(Box<RequestResponse<RequestBlocksMessage>>),
    Blocks(Box<RequestResponse<Objects<BlockComponents>>>),
}

/// A message's kind, the key the fan-out table routes by.
#[derive(Clone, Copy, Debug, PartialEq, Eq, Structural)]
pub enum MessageType {
    GetBlocks,
    RequestBlocks,
    Blocks,
}

impl Message {
    pub open spec fn ty_spec(&self) -> MessageType {
        match self {
            Message::GetBlocks(_) => MessageType::GetBlocks,
            Message::RequestBlocks(_) => MessageType::RequestBlocks,
            Message::Blocks(_) => MessageType::Blocks,
        }
    }

    pub fn ty(&self) -> (r: MessageType)
        ensures
            r == self.ty_spec(),
    {
        match self {
            Message::GetBlocks(_) => MessageType::GetBlocks,
            Message::RequestBlocks(_) => MessageType::RequestBlocks,
            Message::Blocks(_) => MessageType::Blocks,
        }
    }
}

} // verus!
