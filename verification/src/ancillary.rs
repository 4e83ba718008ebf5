//! Decoding of ancillary control data received alongside a socket message.
//!
//! The wire contract expects the peer to attach exactly one rights message
//! carrying exactly one file descriptor.  [`extract_descriptor`] examines the
//! decoded control messages of one receive operation and either hands back
//! the transmitted descriptor or reports how the data was malformed.
//!
//! Policy for a rights message carrying more than one descriptor: the first
//! descriptor is accepted and every further one is returned separately, so
//! that the caller can close each of them explicitly rather than leak them.
//! Control messages after the first are not examined.

use vstd::prelude::*;

use crate::descriptor::{raw_ids, OwnedDescriptor};
use crate::errors::ProtocolError;

verus! {

/// One control message of a receive operation, reduced to what the protocol
/// inspects: either a rights message with its descriptor numbers, or a
/// message of any other kind (for example credentials or a timestamp).
#[derive(Debug)]
pub enum ControlData {
    /// An ancillary rights message and the descriptor numbers it carries.
    Rights(Vec<i32>),
    /// A control message of any non-rights kind.
    OtherKind,
}

/// The descriptor numbers of a control message, or `None` for a message of
/// a non-rights kind.
pub open spec fn rights_list(m: ControlData) -> Option<Seq<i32>> {
    match m {
        ControlData::Rights(v) => Some(v@),
        ControlData::OtherKind => None,
    }
}

/// What one receive operation yields on the malformed inputs and on success:
/// the first transmitted descriptor together with the remaining entries of
/// the rights list.
pub open spec fn spec_extract(msgs: Seq<ControlData>) -> Result<(i32, Seq<i32>), ProtocolError> {
    if msgs.len() == 0 {
        Err(ProtocolError::MissingAncillaryData)
    } else {
        match rights_list(msgs[0]) {
            None => Err(ProtocolError::UnexpectedMessageKind),
            Some(fds) => if fds.len() == 0 {
                Err(ProtocolError::UnexpectedMessageKind)
            } else {
                Ok((fds[0], fds.skip(1)))
            },
        }
    }
}

/// The result of a successful receive operation.
#[derive(Debug)]
pub struct ReceivedFd {
    /// The transmitted descriptor: the first entry of the rights list,
    /// wrapped in an owning type at the point of receipt.
    pub fd: OwnedDescriptor,
    /// Every descriptor of the rights list beyond the first.  The caller
    /// must close each of these exactly once; they are returned rather than
    /// silently dropped so that none can leak.
    pub extra: Vec<OwnedDescriptor>,
}

/// Decode the control messages of one receive operation.
///
/// Succeeds exactly when the first control message is a rights message with
/// at least one descriptor; the descriptor returned is the first of the
/// list and `extra` holds the rest, in order.
pub fn extract_descriptor(msgs: Vec<ControlData>) -> (r: Result<ReceivedFd, ProtocolError>)
    ensures
        (match r {
            Ok(rec) => spec_extract(msgs@) matches Ok(p) && rec.fd.raw_id() == p.0
                && raw_ids(rec.extra@) == p.1,
            Err(e) => spec_extract(msgs@) == Err::<(i32, Seq<i32>), ProtocolError>(e),
        }),
{
    if msgs.len() == 0 {
        return Err(ProtocolError::MissingAncillaryData);
    }
    match &msgs[0] {
        ControlData::Rights(fds) => {
            if fds.len() == 0 {
                Err(ProtocolError::UnexpectedMessageKind)
            } else {
                let fd = OwnedDescriptor::new(fds[0]);
                let mut extra: Vec<OwnedDescriptor> = Vec::new();
                proof {
                    assert(raw_ids(extra@) =~= fds@.subrange(1, 1));
                }
                let mut i: usize = 1;
                while i < fds.len()
                    invariant
                        1 <= i <= fds@.len(),
                        raw_ids(extra@) == fds@.subrange(1, i as int),
                    decreases fds@.len() - i,
                {
                    let ghost prev = extra@;
                    let d = OwnedDescriptor::new(fds[i]);
                    proof {
                        assert(raw_ids(prev.push(d)) =~= raw_ids(prev).push(d.raw_id()));
                        assert(raw_ids(prev).push(d.raw_id()) =~= fds@.subrange(1, i as int + 1));
                    }
                    extra.push(d);
                    i = i + 1;
                }
                proof {
                    assert(fds@.subrange(1, fds@.len() as int) =~= fds@.skip(1));
                }
                Ok(ReceivedFd { fd, extra })
            }
        }
        ControlData::OtherKind => Err(ProtocolError::UnexpectedMessageKind),
    }
}

/// Law: a successful receive accounts for every transmitted descriptor
/// exactly once.  The descriptor returned, followed by those designated for
/// explicit closing, is precisely the rights list of the message, so no
/// descriptor is duplicated and none is dropped.
pub proof fn lemma_receive_exactly_once(msgs: Seq<ControlData>, fd: i32, rest: Seq<i32>)
    requires
        spec_extract(msgs) == Ok::<(i32, Seq<i32>), ProtocolError>((fd, rest)),
    ensures
        msgs.len() > 0,
        rights_list(msgs[0]) matches Some(fds) && seq![fd] + rest == fds
            && (seq![fd] + rest).to_multiset() == fds.to_multiset(),
{
    let fds = rights_list(msgs[0])->Some_0;
    assert(seq![fd] + rest =~= fds);
}

/// Law: malformed ancillary data is rejected.  A receive with no control
/// message yields the missing-data error; one whose first message is not a
/// rights message, or is a rights message with no descriptor, yields the
/// unexpected-kind error.
pub proof fn lemma_rejects_malformed(msgs: Seq<ControlData>)
    requires
        msgs.len() == 0
            || rights_list(msgs[0]) is None
            || (rights_list(msgs[0]) matches Some(fds) && fds.len() == 0),
    ensures
        spec_extract(msgs) is Err,
        msgs.len() == 0 ==> spec_extract(msgs)
            == Err::<(i32, Seq<i32>), ProtocolError>(ProtocolError::MissingAncillaryData),
        msgs.len() > 0 ==> spec_extract(msgs)
            == Err::<(i32, Seq<i32>), ProtocolError>(ProtocolError::UnexpectedMessageKind),
{
}

} // verus!
