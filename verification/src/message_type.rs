//! The protocol's closed message-type enumeration.
//!
//! One value per wire-protocol message kind. The set is defined by the
//! protocol's schema and is closed: the transport layer supplies a value of
//! this enumeration together with the raw message payload, and this crate
//! never constructs new kinds. The wire tag numbers behind these values are
//! fixed by the protocol and belong to the transport layer's codec.

use vstd::prelude::*;

verus! {

/// The protocol type of an end-to-end encrypted message.
#[derive(Clone, Copy, PartialEq, Eq, Debug)]
pub enum CspE2eMessageType {
    /// A 1:1 text message.
    Text,
    /// A 1:1 image message (deprecated format).
    DeprecatedImage,
    /// A 1:1 location message.
    Location,
    /// A 1:1 video message (deprecated format).
    DeprecatedVideo,
    /// A 1:1 audio message (deprecated format).
    DeprecatedAudio,
    /// A poll creation message.
    PollSetup,
    /// A poll vote message.
    PollVote,
    /// A 1:1 file message.
    File,
    /// Request to set the sender's profile picture.
    ContactSetProfilePicture,
    /// Request to delete the sender's profile picture.
    ContactDeleteProfilePicture,
    /// Request to send the user's profile picture.
    ContactRequestProfilePicture,
    /// A group text message.
    GroupText,
    /// A group location message.
    GroupLocation,
    /// A group image message.
    GroupImage,
    /// A group video message.
    GroupVideo,
    /// A group audio message.
    GroupAudio,
    /// A group file message.
    GroupFile,
    /// A group creation / membership update message.
    GroupSetup,
    /// A group rename message.
    GroupName,
    /// A group leave message.
    GroupLeave,
    /// A group join request.
    GroupJoinRequest,
    /// A response to a group join request.
    GroupJoinResponse,
    /// A group call start message.
    GroupCallStart,
    /// Request to synchronise group state.
    GroupSyncRequest,
    /// A group poll creation message.
    GroupPollSetup,
    /// A group poll vote message.
    GroupPollVote,
    /// Request to set the group's picture.
    GroupSetProfilePicture,
    /// Request to delete the group's picture.
    GroupDeleteProfilePicture,
    /// A 1:1 call offer.
    CallOffer,
    /// A 1:1 call answer.
    CallAnswer,
    /// A 1:1 call ICE candidate exchange message.
    CallIceCandidate,
    /// A 1:1 call hangup message.
    CallHangup,
    /// A 1:1 call ringing message.
    CallRinging,
    /// A delivery receipt for a 1:1 message.
    DeliveryReceipt,
    /// A delivery receipt for a group message.
    GroupDeliveryReceipt,
    /// A typing indicator.
    TypingIndicator,
    /// An edit of a previously sent 1:1 message.
    EditMessage,
    /// Removal of a previously sent 1:1 message.
    DeleteMessage,
    /// An edit of a previously sent group message.
    GroupEditMessage,
    /// Removal of a previously sent group message.
    GroupDeleteMessage,
    /// An envelope of the forward-security sub-protocol.
    ForwardSecurityEnvelope,
    /// A message without content, used for protocol-internal purposes.
    EmptyMessage,
    /// A control message from the web client, requesting a session to be
    /// resumed.
    WebSessionResume,
}

} // verus!
