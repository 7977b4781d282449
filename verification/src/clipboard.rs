//! Keeping this computer's clipboard and the phone's in step.
//!
//! The clipboard is read and written by the caller. Each function here takes what
//! the caller found and says what to do next.

use vstd::prelude::*;

use crate::protocol::{send_clipboard_set, send_key, KeyCode, Outbox};
#[allow(unused_imports)]
use crate::protocol::{
    clipboard_payload, law_clipboard_payload_reads_back, with_message, Message,
};

verus! {

/// The bookkeeping of one session. A text whose hash was already synced is the echo
/// of what the phone sent, or of our own paste, and is not sent again.
#[derive(Clone, Copy, Debug, PartialEq, Eq, Structural)]
pub struct ClipState {
    /// The change count of the clipboard when it was last looked at or written.
    pub last_change_count: i64,
    /// The hash of the text that both sides have, if any.
    pub last_synced_hash: Option<u64>,
}

/// The bookkeeping at the start of a session.
pub open spec fn nothing_synced() -> ClipState {
    ClipState { last_change_count: 0, last_synced_hash: None }
}

impl Default for ClipState {
    /// Nothing synced yet.
    fn default() -> (clip: ClipState)
        ensures
            clip == nothing_synced(),
    {
        ClipState { last_change_count: 0, last_synced_hash: None }
    }
}

/// A text from a clipboard, with its hash.
#[derive(Debug, PartialEq, Eq)]
pub struct ClipText {
    pub text: String,
    pub hash: u64,
}

/// A text that may go to the phone: not empty, and no longer than `max_bytes` in
/// UTF-8.
pub open spec fn is_usable(text: Seq<char>, max_bytes: usize) -> bool {
    text.len() > 0 && vstd::utf8::encode_utf8(text).len() <= max_bytes
}

/// What was found on the clipboard may go to the phone.
pub open spec fn found_usable(found: Option<ClipText>, max_bytes: usize) -> bool {
    found matches Some(clip_text) && is_usable(clip_text.text@, max_bytes)
}

fn usable(text: &str, max_bytes: usize) -> (b: bool)
    ensures
        b == is_usable(text@, max_bytes),
{
    !text.is_empty() && text.as_bytes().len() <= max_bytes
}

/// What a poll of the clipboard finds.
#[derive(Debug, PartialEq, Eq)]
pub enum PollEvent {
    /// The clipboard's change count.
    ChangeCount(i64),
    /// The text on it, if it holds text.
    Text(Option<ClipText>),
}

/// What a poll of the clipboard does next.
#[derive(Clone, Copy, Debug, PartialEq, Eq, Structural)]
pub enum PollAction {
    /// Read the text.
    ReadText,
    /// Nothing: the poll is over.
    Done,
}

/// The text that was found is new to the phone and may go there.
pub open spec fn is_news(clip: ClipState, found: Option<ClipText>, max_bytes: usize) -> bool {
    found_usable(found, max_bytes) && clip.last_synced_hash != Some(found->0.hash)
}

/// The bookkeeping after a step of a poll.
pub open spec fn poll_next(clip: ClipState, event: PollEvent, max_bytes: usize) -> ClipState {
    match event {
        PollEvent::ChangeCount(count) => ClipState { last_change_count: count, ..clip },
        PollEvent::Text(found) => if is_news(clip, found, max_bytes) {
            ClipState { last_synced_hash: Some(found->0.hash), ..clip }
        } else {
            clip
        },
    }
}

/// What to do after a step of a poll: the text is only read when the clipboard
/// changed.
pub open spec fn poll_action(clip: ClipState, event: PollEvent) -> PollAction {
    if event matches PollEvent::ChangeCount(count) && count != clip.last_change_count {
        PollAction::ReadText
    } else {
        PollAction::Done
    }
}

/// What a step of a poll says to the phone: a text that is news to it, without a
/// paste.
pub open spec fn poll_said(clip: ClipState, event: PollEvent, max_bytes: usize) -> Option<
    Message,
> {
    match event {
        PollEvent::ChangeCount(_) => None,
        PollEvent::Text(found) => if is_news(clip, found, max_bytes) {
            Some(Message::ClipboardSet(clipboard_payload(found->0.text@, false)))
        } else {
            None
        },
    }
}

/// One step of a poll of the clipboard. If it changed to a text that the phone does
/// not have, the text is pushed to the phone.
pub fn poll_clipboard(
    clip: &mut ClipState,
    event: PollEvent,
    max_bytes: usize,
    tx: &mut Outbox,
) -> (action: PollAction)
    ensures
        *final(clip) == poll_next(*old(clip), event, max_bytes),
        action == poll_action(*old(clip), event),
        final(tx)@ == with_message(old(tx)@, poll_said(*old(clip), event, max_bytes)),
{
    match event {
        PollEvent::ChangeCount(count) => {
            if count == clip.last_change_count {
                return PollAction::Done;
            }
            clip.last_change_count = count;
            PollAction::ReadText
        },
        PollEvent::Text(found) => {
            if let Some(ClipText { text, hash }) = found {
                if usable(text.as_str(), max_bytes) {
                    let synced = match clip.last_synced_hash {
                        Some(h) => h == hash,
                        None => false,
                    };
                    if !synced {
                        clip.last_synced_hash = Some(hash);
                        send_clipboard_set(tx, text.as_str(), false);
                    }
                }
            }
            PollAction::Done
        },
    }
}

/// What happens while a text from the phone is put on the clipboard.
#[derive(Debug, PartialEq, Eq)]
pub enum RemoteEvent {
    /// The phone sent a text.
    Received(ClipText),
    /// The text was written, and this is the clipboard's change count now.
    Written(i64),
}

/// What to do next with a text from the phone.
#[derive(Debug, PartialEq, Eq)]
pub enum RemoteAction {
    /// Put this text on the clipboard.
    WriteText(String),
    /// Nothing.
    Done,
}

/// A text from the phone that this computer does not have yet.
pub open spec fn is_remote_news(clip: ClipState, received: ClipText) -> bool {
    received.text@.len() > 0 && clip.last_synced_hash != Some(received.hash)
}

/// The bookkeeping after a step with a text from the phone.
pub open spec fn remote_next(clip: ClipState, event: RemoteEvent) -> ClipState {
    match event {
        RemoteEvent::Received(received) => if is_remote_news(clip, received) {
            ClipState { last_synced_hash: Some(received.hash), ..clip }
        } else {
            clip
        },
        RemoteEvent::Written(count) => ClipState { last_change_count: count, ..clip },
    }
}

/// What to do after a step with a text from the phone.
pub open spec fn remote_action(clip: ClipState, event: RemoteEvent) -> RemoteAction {
    match event {
        RemoteEvent::Received(received) => if is_remote_news(clip, received) {
            RemoteAction::WriteText(received.text)
        } else {
            RemoteAction::Done
        },
        RemoteEvent::Written(_) => RemoteAction::Done,
    }
}

/// One step of putting a text from the phone on the clipboard. The hash and the
/// change count are recorded so that our own poll does not echo the text.
pub fn apply_remote_clipboard(clip: &mut ClipState, event: RemoteEvent) -> (action: RemoteAction)
    ensures
        *final(clip) == remote_next(*old(clip), event),
        action == remote_action(*old(clip), event),
{
    match event {
        RemoteEvent::Received(ClipText { text, hash }) => {
            if text.as_str().is_empty() {
                return RemoteAction::Done;
            }
            if let Some(h) = clip.last_synced_hash {
                if h == hash {
                    return RemoteAction::Done;
                }
            }
            clip.last_synced_hash = Some(hash);
            RemoteAction::WriteText(text)
        },
        RemoteEvent::Written(count) => {
            clip.last_change_count = count;
            RemoteAction::Done
        },
    }
}

/// The bookkeeping after a paste.
pub open spec fn paste_next(clip: ClipState, found: Option<ClipText>, max_bytes: usize) -> ClipState {
    if found_usable(found, max_bytes) {
        ClipState { last_synced_hash: Some(found->0.hash), ..clip }
    } else {
        clip
    }
}

/// What a paste says to the phone: the text to set and paste, or, where there is none
/// to send, a plain paste of what the phone has.
pub open spec fn paste_said(found: Option<ClipText>, max_bytes: usize) -> Message {
    if found_usable(found, max_bytes) {
        Message::ClipboardSet(clipboard_payload(found->0.text@, true))
    } else {
        Message::Key(KeyCode::Paste)
    }
}

/// Paste on the phone what was found on this computer's clipboard.
pub fn paste_clipboard(
    clip: &mut ClipState,
    found: Option<ClipText>,
    max_bytes: usize,
    tx: &mut Outbox,
)
    ensures
        *final(clip) == paste_next(*old(clip), found, max_bytes),
        final(tx)@ == old(tx)@.push(paste_said(found, max_bytes)),
        (found matches Some(c) && c.text@.len() > 0 && vstd::utf8::encode_utf8(c.text@).len()
            <= max_bytes) ==> final(tx)@ == old(tx)@.push(
            Message::ClipboardSet(seq![1u8] + vstd::utf8::encode_utf8(found->0.text@)),
        ) && final(clip).last_synced_hash == Some(found->0.hash),
        !(found matches Some(c) && c.text@.len() > 0 && vstd::utf8::encode_utf8(c.text@).len()
            <= max_bytes) ==> final(tx)@ == old(tx)@.push(Message::Key(KeyCode::Paste))
            && final(clip).last_synced_hash == old(clip).last_synced_hash,
        final(clip).last_change_count == old(clip).last_change_count,
{
    if let Some(ClipText { text, hash }) = found {
        if usable(text.as_str(), max_bytes) {
            clip.last_synced_hash = Some(hash);
            send_clipboard_set(tx, text.as_str(), true);
            return ;
        }
    }
    send_key(tx, KeyCode::Paste);
}

/// A whole poll: the bookkeeping after it and what it said to the phone, when the
/// clipboard has this change count and holds `found`.
pub open spec fn polled(
    clip: ClipState,
    count: i64,
    found: Option<ClipText>,
    max_bytes: usize,
) -> (ClipState, Option<Message>) {
    let looked = poll_next(clip, PollEvent::ChangeCount(count), max_bytes);
    match poll_action(clip, PollEvent::ChangeCount(count)) {
        PollAction::ReadText => (
            poll_next(looked, PollEvent::Text(found), max_bytes),
            poll_said(looked, PollEvent::Text(found), max_bytes),
        ),
        PollAction::Done => (looked, None),
    }
}

/// The bookkeeping after a text from the phone was put on the clipboard, whose change
/// count came to `count` by that.
pub open spec fn after_remote(clip: ClipState, received: ClipText, count: i64) -> ClipState {
    match remote_action(clip, RemoteEvent::Received(received)) {
        RemoteAction::WriteText(_) => remote_next(
            remote_next(clip, RemoteEvent::Received(received)),
            RemoteEvent::Written(count),
        ),
        RemoteAction::Done => remote_next(clip, RemoteEvent::Received(received)),
    }
}

/// A text from the phone is not echoed: the poll after it is put on the clipboard
/// does not even read the clipboard, and says nothing.
pub proof fn law_remote_text_not_echoed(
    clip: ClipState,
    received: ClipText,
    count: i64,
    found: Option<ClipText>,
    max_bytes: usize,
)
    requires
        is_remote_news(clip, received),
    ensures
        poll_action(
            after_remote(clip, received, count),
            PollEvent::ChangeCount(count),
        ) == PollAction::Done,
        polled(after_remote(clip, received, count), count, found, max_bytes) == (
            after_remote(clip, received, count),
            None::<Message>,
        ),
{
}

/// A text from the phone is not echoed later either: whenever the clipboard is found
/// to hold a text of the same hash, nothing is said.
pub proof fn law_remote_hash_not_echoed(
    clip: ClipState,
    received: ClipText,
    written: i64,
    count: i64,
    found: ClipText,
    max_bytes: usize,
)
    requires
        received.text@.len() > 0,
        found.hash == received.hash,
    ensures
        polled(after_remote(clip, received, written), count, Some(found), max_bytes).1 is None,
{
}

/// A text pushed by a paste is not pushed again by a poll.
pub proof fn law_pasted_text_not_resent(
    clip: ClipState,
    pasted: ClipText,
    count: i64,
    found: ClipText,
    max_bytes: usize,
)
    requires
        is_usable(pasted.text@, max_bytes),
        found.hash == pasted.hash,
    ensures
        polled(paste_next(clip, Some(pasted), max_bytes), count, Some(found), max_bytes).1 is None,
{
}

/// A changed clipboard with a text that the phone does not have is pushed, as it is
/// and without a paste.
pub proof fn law_new_text_pushed(clip: ClipState, count: i64, found: ClipText, max_bytes: usize)
    requires
        count != clip.last_change_count,
        is_usable(found.text@, max_bytes),
        clip.last_synced_hash != Some(found.hash),
    ensures
        polled(clip, count, Some(found), max_bytes).1 == Some(
            Message::ClipboardSet(clipboard_payload(found.text@, false)),
        ),
{
}

/// A text is pushed once: after a poll, neither another poll of the unchanged
/// clipboard nor a change to a text of the same hash says anything.
pub proof fn law_text_pushed_once(
    clip: ClipState,
    count: i64,
    found: ClipText,
    later: i64,
    again: ClipText,
    other: Option<ClipText>,
    max_bytes: usize,
)
    requires
        polled(clip, count, Some(found), max_bytes).1 is Some,
        again.hash == found.hash,
    ensures
        ({
            let after = polled(clip, count, Some(found), max_bytes).0;
            &&& polled(after, count, other, max_bytes) == (after, None::<Message>)
            &&& polled(after, later, Some(again), max_bytes).1 is None
        }),
{
}

/// A text that arrives from the phone a second time is not written again.
pub proof fn law_remote_text_written_once(
    clip: ClipState,
    received: ClipText,
    count: i64,
    again: ClipText,
)
    requires
        received.text@.len() > 0,
        again.hash == received.hash,
    ensures
        remote_action(
            after_remote(clip, received, count),
            RemoteEvent::Received(again),
        ) == RemoteAction::Done,
{
}

/// A text that this computer pushed, by a poll or by a paste, and that the phone
/// sends back is not written to the clipboard.
pub proof fn law_pushed_text_not_written_back(
    clip: ClipState,
    count: i64,
    found: ClipText,
    back: ClipText,
    max_bytes: usize,
)
    requires
        back.hash == found.hash,
    ensures
        polled(clip, count, Some(found), max_bytes).1 is Some ==> remote_action(
            polled(clip, count, Some(found), max_bytes).0,
            RemoteEvent::Received(back),
        ) == RemoteAction::Done,
        is_usable(found.text@, max_bytes) ==> remote_action(
            paste_next(clip, Some(found), max_bytes),
            RemoteEvent::Received(back),
        ) == RemoteAction::Done,
{
}

/// Every poll records the change count, so an unchanged clipboard is never read
/// twice.
pub proof fn law_poll_records_count(
    clip: ClipState,
    count: i64,
    found: Option<ClipText>,
    max_bytes: usize,
)
    ensures
        polled(clip, count, found, max_bytes).0.last_change_count == count,
        poll_action(
            polled(clip, count, found, max_bytes).0,
            PollEvent::ChangeCount(count),
        ) == PollAction::Done,
{
}

/// A clipboard message carries a text that may go to the phone, whether a poll or a
/// paste sends it: one that is not empty, in no more than `max_bytes` bytes behind the
/// flags byte.
pub proof fn law_only_usable_text_is_sent(
    clip: ClipState,
    count: i64,
    found: Option<ClipText>,
    max_bytes: usize,
)
    ensures
        polled(clip, count, found, max_bytes).1 matches Some(Message::ClipboardSet(payload)) ==> {
            &&& found_usable(found, max_bytes)
            &&& payload == clipboard_payload(found->0.text@, false)
            &&& payload.len() <= max_bytes + 1
        },
        paste_said(found, max_bytes) matches Message::ClipboardSet(payload) ==> {
            &&& found_usable(found, max_bytes)
            &&& payload == clipboard_payload(found->0.text@, true)
            &&& payload.len() <= max_bytes + 1
        },
{
}

/// A paste sets and pastes the text on the clipboard if and only if there is one, it is
/// not empty, and it is no longer than the limit in UTF-8; then its hash is recorded as
/// synced. In every other case it is a plain paste, and nothing is recorded.
pub proof fn law_paste_sends_the_text(
    clip: ClipState,
    found: Option<ClipText>,
    max_bytes: usize,
)
    ensures
        ({
            let fits = found matches Some(c) && c.text@.len() > 0 && vstd::utf8::encode_utf8(
                c.text@,
            ).len() <= max_bytes;
            &&& fits <==> paste_said(found, max_bytes) is ClipboardSet
            &&& fits ==> paste_said(found, max_bytes) == Message::ClipboardSet(
                seq![1u8] + vstd::utf8::encode_utf8(found->0.text@),
            )
            &&& fits ==> paste_next(clip, found, max_bytes) == (ClipState {
                last_change_count: clip.last_change_count,
                last_synced_hash: Some(found->0.hash),
            })
            &&& !fits ==> paste_said(found, max_bytes) == Message::Key(KeyCode::Paste)
            &&& !fits ==> paste_next(clip, found, max_bytes) == clip
        }),
{
}

/// A poll that reads the clipboard pushes the text if and only if there is one, it is not
/// empty, it is no longer than the limit in UTF-8, and its hash is not the one synced last;
/// then the hash is recorded. In every other case nothing is said and nothing recorded.
pub proof fn law_poll_sends_the_text(
    clip: ClipState,
    found: Option<ClipText>,
    max_bytes: usize,
)
    ensures
        ({
            let news = found matches Some(c) && c.text@.len() > 0 && vstd::utf8::encode_utf8(
                c.text@,
            ).len() <= max_bytes && clip.last_synced_hash != Some(c.hash);
            let read = PollEvent::Text(found);
            &&& news ==> poll_said(clip, read, max_bytes) == Some(
                Message::ClipboardSet(seq![0u8] + vstd::utf8::encode_utf8(found->0.text@)),
            )
            &&& news ==> poll_next(clip, read, max_bytes) == (ClipState {
                last_change_count: clip.last_change_count,
                last_synced_hash: Some(found->0.hash),
            })
            &&& !news ==> poll_said(clip, read, max_bytes) is None
            &&& !news ==> poll_next(clip, read, max_bytes) == clip
            &&& poll_action(clip, read) == PollAction::Done
        }),
{
}

/// A poll reads the clipboard if and only if its change count is another than the one seen
/// last, records the count, keeps the hash, and says nothing by that.
pub proof fn law_poll_looks_at_the_count(clip: ClipState, count: i64, max_bytes: usize)
    ensures
        ({
            let looked = PollEvent::ChangeCount(count);
            &&& count != clip.last_change_count ==> poll_action(clip, looked)
                == PollAction::ReadText
            &&& count == clip.last_change_count ==> poll_action(clip, looked) == PollAction::Done
            &&& poll_next(clip, looked, max_bytes) == (ClipState {
                last_change_count: count,
                last_synced_hash: clip.last_synced_hash,
            })
            &&& poll_said(clip, looked, max_bytes) is None
        }),
{
}

/// A text from the phone is written, as it came, if and only if it is not empty and its
/// hash is not the one synced last; then the hash is recorded. The change count after the
/// writing is recorded as it is, and the hash kept.
pub proof fn law_remote_text_is_written(clip: ClipState, received: ClipText, count: i64)
    ensures
        ({
            let news = received.text@.len() > 0 && clip.last_synced_hash != Some(received.hash);
            let came = RemoteEvent::Received(received);
            &&& news ==> remote_action(clip, came) == RemoteAction::WriteText(received.text)
            &&& news ==> remote_next(clip, came) == (ClipState {
                last_change_count: clip.last_change_count,
                last_synced_hash: Some(received.hash),
            })
            &&& !news ==> remote_action(clip, came) == RemoteAction::Done
            &&& !news ==> remote_next(clip, came) == clip
        }),
        remote_action(clip, RemoteEvent::Written(count)) == RemoteAction::Done,
        remote_next(clip, RemoteEvent::Written(count)) == (ClipState {
            last_change_count: count,
            last_synced_hash: clip.last_synced_hash,
        }),
        nothing_synced() == (ClipState { last_change_count: 0, last_synced_hash: None }),
{
}

/// What the phone pastes or gets is what this computer has: the payload of a paste and of
/// a poll of the same text differ in the flags byte alone, and both decode to the text.
pub proof fn law_paste_and_poll_carry_the_same_text(
    clip: ClipState,
    found: ClipText,
    max_bytes: usize,
)
    requires
        found.text@.len() > 0,
        vstd::utf8::encode_utf8(found.text@).len() <= max_bytes,
        clip.last_synced_hash != Some(found.hash),
    ensures
        poll_said(clip, PollEvent::Text(Some(found)), max_bytes) matches Some(
            Message::ClipboardSet(pushed),
        ) && (paste_said(Some(found), max_bytes) matches Message::ClipboardSet(pasted) && {
            &&& pushed.skip(1) == pasted.skip(1)
            &&& vstd::utf8::decode_utf8(pasted.skip(1)) == found.text@
            &&& pushed[0] == 0 && pasted[0] == 1
        }),
{
    law_clipboard_payload_reads_back(found.text@, true);
    law_clipboard_payload_reads_back(found.text@, false);
    assert(clipboard_payload(found.text@, true).skip(1) =~= clipboard_payload(
        found.text@,
        false,
    ).skip(1));
}

} // verus!
