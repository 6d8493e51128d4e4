//! Fetching a voice from the server, one decision at a time.
//!
//! A download asks for one thing to be done, is told how it went, and asks
//! for the next: fetch the address, read the body, write the file, finish.
//! The file is asked for only after a response whose status is a success and
//! whose body arrived in full.

use crate::assets::{FileWrite, FileWriteView, StorageRoot};
use crate::error::{lemma_status_message_holds_code, message_text, AssetError, AssetErrorView};
use crate::naming::{voice_address, voice_file, voice_file_name, voice_url};
use crate::status::HttpStatus;
use crate::text::{decimal, occurs_in};
use vstd::prelude::*;

verus! {

/// How far a download has come.
#[derive(Clone, Copy, Debug, PartialEq, Eq, Structural)]
pub enum DownloadState {
    /// Nothing was asked for yet.
    Idle,
    /// The address was asked for; no response is known yet.
    AwaitingResponse,
    /// The response is a success; its body was asked for.
    AwaitingBody,
    /// The body is there; the file was asked to be written.
    AwaitingWrite,
    /// The download has finished, well or not.
    Done,
}

/// What happened to what a download last asked for.
#[derive(Debug, PartialEq, Eq)]
pub enum DownloadEvent {
    /// The download is to begin.
    Begin,
    /// No response came: what the transport said.
    RequestFailed(String),
    /// A response came, with this status.
    Responded(HttpStatus),
    /// The body did not arrive in full: what the transport said.
    BodyFailed(String),
    /// The body arrived: its bytes.
    BodyRead(Vec<u8>),
    /// The file was not written: what the file system said.
    WriteFailed(String),
    /// The file was written: its path.
    Written(String),
}

/// What a download asks for next.
#[derive(Debug, PartialEq, Eq)]
pub enum DownloadAction {
    /// Send one GET request to this address.
    Fetch(String),
    /// Read the whole body of the response.
    ReadBody,
    /// Write this file.
    Write(FileWrite),
    /// Nothing more: this is what the download came to, the path of the file
    /// or the error.
    Finish(Result<String, AssetError>),
}

/// A `DownloadEvent` with its texts and bytes as sequences.
pub enum DownloadEventView {
    Begin,
    RequestFailed(Seq<char>),
    Responded(HttpStatus),
    BodyFailed(Seq<char>),
    BodyRead(Seq<u8>),
    WriteFailed(Seq<char>),
    Written(Seq<char>),
}

/// A `DownloadAction` with its parts by their views.
pub enum DownloadActionView {
    Fetch(Seq<char>),
    ReadBody,
    Write(FileWriteView),
    Finish(Result<Seq<char>, AssetErrorView>),
}

impl View for DownloadEvent {
    type V = DownloadEventView;

    open spec fn view(&self) -> DownloadEventView {
        match *self {
            DownloadEvent::Begin => DownloadEventView::Begin,
            DownloadEvent::RequestFailed(detail) => DownloadEventView::RequestFailed(detail@),
            DownloadEvent::Responded(status) => DownloadEventView::Responded(status),
            DownloadEvent::BodyFailed(detail) => DownloadEventView::BodyFailed(detail@),
            DownloadEvent::BodyRead(bytes) => DownloadEventView::BodyRead(bytes@),
            DownloadEvent::WriteFailed(detail) => DownloadEventView::WriteFailed(detail@),
            DownloadEvent::Written(path) => DownloadEventView::Written(path@),
        }
    }
}

impl View for DownloadAction {
    type V = DownloadActionView;

    open spec fn view(&self) -> DownloadActionView {
        match *self {
            DownloadAction::Fetch(url) => DownloadActionView::Fetch(url@),
            DownloadAction::ReadBody => DownloadActionView::ReadBody,
            DownloadAction::Write(write) => DownloadActionView::Write(write@),
            DownloadAction::Finish(Ok(path)) => DownloadActionView::Finish(Ok(path@)),
            DownloadAction::Finish(Err(error)) => DownloadActionView::Finish(Err(error@)),
        }
    }
}

/// The state and the action that follow, by their views; `None` where there
/// is no step.
pub open spec fn step_view(step: Option<(DownloadState, DownloadAction)>) -> Option<
    (DownloadState, DownloadActionView),
> {
    match step {
        Some((state, action)) => Some((state, action@)),
        None => None,
    }
}

/// The step that a download of the voice `voice_id` takes in `state` when
/// told `event`: the state it is in afterwards and what it asks for.
///
/// There is a step only where the event answers what the state waits for.
/// A failure, or a status that is no success, finishes the download with the
/// error, and so does the written file with its path.
pub open spec fn download_step(
    voice_id: Seq<char>,
    state: DownloadState,
    event: DownloadEventView,
) -> Option<(DownloadState, DownloadActionView)> {
    match (state, event) {
        (DownloadState::Idle, DownloadEventView::Begin) => Some(
            (DownloadState::AwaitingResponse, DownloadActionView::Fetch(voice_address(voice_id))),
        ),
        (DownloadState::AwaitingResponse, DownloadEventView::RequestFailed(detail)) => Some(
            (
                DownloadState::Done,
                DownloadActionView::Finish(Err(AssetErrorView::NetworkFailed(detail))),
            ),
        ),
        (DownloadState::AwaitingResponse, DownloadEventView::Responded(status)) => if 200
            <= status.code() <= 299 {
            Some((DownloadState::AwaitingBody, DownloadActionView::ReadBody))
        } else {
            Some(
                (
                    DownloadState::Done,
                    DownloadActionView::Finish(Err(AssetErrorView::HttpStatus(status))),
                ),
            )
        },
        (DownloadState::AwaitingBody, DownloadEventView::BodyFailed(detail)) => Some(
            (
                DownloadState::Done,
                DownloadActionView::Finish(Err(AssetErrorView::BodyFailed(detail))),
            ),
        ),
        (DownloadState::AwaitingBody, DownloadEventView::BodyRead(bytes)) => Some(
            (
                DownloadState::AwaitingWrite,
                DownloadActionView::Write(
                    FileWriteView {
                        root: StorageRoot::Voices,
                        file_name: voice_file(voice_id),
                        bytes,
                    },
                ),
            ),
        ),
        (DownloadState::AwaitingWrite, DownloadEventView::WriteFailed(detail)) => Some(
            (
                DownloadState::Done,
                DownloadActionView::Finish(Err(AssetErrorView::IoFailed(detail))),
            ),
        ),
        (DownloadState::AwaitingWrite, DownloadEventView::Written(path)) => Some(
            (DownloadState::Done, DownloadActionView::Finish(Ok(path))),
        ),
        _ => None,
    }
}

/// Takes one step of the download of the voice `voice_id`: in `state`, told
/// `event`, it gives the state that follows and what is to be done next, or
/// `None` where the event does not answer what the state waits for.
///
/// A download begins in `Idle` with `Begin`, and is over once it asks for
/// `Finish`.
pub fn download_voice(voice_id: &str, state: DownloadState, event: DownloadEvent) -> (step: Option<
    (DownloadState, DownloadAction),
>)
    ensures
        step_view(step) == download_step(voice_id@, state, event@),
{
    match (state, event) {
        (DownloadState::Idle, DownloadEvent::Begin) => Some(
            (DownloadState::AwaitingResponse, DownloadAction::Fetch(voice_url(voice_id))),
        ),
        (DownloadState::AwaitingResponse, DownloadEvent::RequestFailed(detail)) => Some(
            (DownloadState::Done, DownloadAction::Finish(Err(AssetError::NetworkFailed(detail)))),
        ),
        (DownloadState::AwaitingResponse, DownloadEvent::Responded(status)) => {
            if status.is_success() {
                Some((DownloadState::AwaitingBody, DownloadAction::ReadBody))
            } else {
                Some(
                    (
                        DownloadState::Done,
                        DownloadAction::Finish(Err(AssetError::HttpStatus(status))),
                    ),
                )
            }
        },
        (DownloadState::AwaitingBody, DownloadEvent::BodyFailed(detail)) => Some(
            (DownloadState::Done, DownloadAction::Finish(Err(AssetError::BodyFailed(detail)))),
        ),
        (DownloadState::AwaitingBody, DownloadEvent::BodyRead(bytes)) => Some(
            (
                DownloadState::AwaitingWrite,
                DownloadAction::Write(
                    FileWrite {
                        root: StorageRoot::Voices,
                        file_name: voice_file_name(voice_id),
                        bytes,
                    },
                ),
            ),
        ),
        (DownloadState::AwaitingWrite, DownloadEvent::WriteFailed(detail)) => Some(
            (DownloadState::Done, DownloadAction::Finish(Err(AssetError::IoFailed(detail)))),
        ),
        (DownloadState::AwaitingWrite, DownloadEvent::Written(path)) => Some(
            (DownloadState::Done, DownloadAction::Finish(Ok(path))),
        ),
        _ => None,
    }
}

/// What a download of the voice `voice_id` asks for, one action after
/// another, when it is in `state` and is told `events` in their order. It asks
/// for nothing more once an event is no step.
pub open spec fn asked(
    voice_id: Seq<char>,
    state: DownloadState,
    events: Seq<DownloadEventView>,
) -> Seq<DownloadActionView>
    decreases events.len(),
{
    if events.len() == 0 {
        Seq::empty()
    } else {
        match download_step(voice_id, state, events[0]) {
            Some((next, action)) => seq![action] + asked(voice_id, next, events.drop_first()),
            None => Seq::empty(),
        }
    }
}

/// A finished download asks for nothing, whatever it is told.
pub proof fn lemma_done_asks_nothing(voice_id: Seq<char>, events: Seq<DownloadEventView>)
    ensures
        asked(voice_id, DownloadState::Done, events) == Seq::<DownloadActionView>::empty(),
{
}

/// A response whose status is no success finishes the download: the error
/// is that status, the line that reports it holds the code in decimal, and
/// no file is asked to be written. Whatever the download is told after that
/// response, it has asked for the address and for the end, and for nothing
/// else.
pub proof fn lemma_failed_status_ends_download(
    voice_id: Seq<char>,
    status: HttpStatus,
    later: Seq<DownloadEventView>,
)
    requires
        !(200 <= status.code() <= 299),
    ensures
        download_step(
            voice_id,
            DownloadState::AwaitingResponse,
            DownloadEventView::Responded(status),
        ) == Some(
            (
                DownloadState::Done,
                DownloadActionView::Finish(Err(AssetErrorView::HttpStatus(status))),
            ),
        ),
        occurs_in(
            decimal(status.code() as nat),
            message_text(AssetErrorView::HttpStatus(status)),
        ),
        asked(
            voice_id,
            DownloadState::Idle,
            seq![DownloadEventView::Begin, DownloadEventView::Responded(status)] + later,
        ) == seq![
            DownloadActionView::Fetch(voice_address(voice_id)),
            DownloadActionView::Finish(Err(AssetErrorView::HttpStatus(status))),
        ],
{
    lemma_status_message_holds_code(status);
    let events = seq![DownloadEventView::Begin, DownloadEventView::Responded(status)] + later;
    let after_begin = events.drop_first();
    let after_response = after_begin.drop_first();
    assert(events[0] == DownloadEventView::Begin);
    assert(after_begin[0] == DownloadEventView::Responded(status));
    lemma_done_asks_nothing(voice_id, after_response);
    assert(asked(voice_id, DownloadState::AwaitingResponse, after_begin) =~= seq![
        DownloadActionView::Finish(Err(AssetErrorView::HttpStatus(status))),
    ]);
    assert(asked(voice_id, DownloadState::Idle, events) =~= seq![
        DownloadActionView::Fetch(voice_address(voice_id)),
        DownloadActionView::Finish(Err(AssetErrorView::HttpStatus(status))),
    ]);
}

/// A download that meets no failure asks for four things and ends well:
/// the address of the voice, the body of the response, the voice's file
/// under the voices root with the body as it came, and the end, with the
/// path that the write gave.
pub proof fn lemma_download_without_failure(
    voice_id: Seq<char>,
    status: HttpStatus,
    body: Seq<u8>,
    path: Seq<char>,
)
    requires
        200 <= status.code() <= 299,
    ensures
        asked(
            voice_id,
            DownloadState::Idle,
            seq![
                DownloadEventView::Begin,
                DownloadEventView::Responded(status),
                DownloadEventView::BodyRead(body),
                DownloadEventView::Written(path),
            ],
        ) == seq![
            DownloadActionView::Fetch(voice_address(voice_id)),
            DownloadActionView::ReadBody,
            DownloadActionView::Write(
                FileWriteView {
                    root: StorageRoot::Voices,
                    file_name: voice_file(voice_id),
                    bytes: body,
                },
            ),
            DownloadActionView::Finish(Ok(path)),
        ],
{
    let events = seq![
        DownloadEventView::Begin,
        DownloadEventView::Responded(status),
        DownloadEventView::BodyRead(body),
        DownloadEventView::Written(path),
    ];
    let first = events.drop_first();
    let second = first.drop_first();
    let third = second.drop_first();
    lemma_done_asks_nothing(voice_id, third.drop_first());
    assert(asked(voice_id, DownloadState::AwaitingWrite, third) =~= seq![
        DownloadActionView::Finish(Ok(path)),
    ]);
    assert(asked(voice_id, DownloadState::AwaitingBody, second).len() == 2);
    assert(asked(voice_id, DownloadState::AwaitingResponse, first).len() == 3);
    assert(asked(voice_id, DownloadState::Idle, events) =~= seq![
        DownloadActionView::Fetch(voice_address(voice_id)),
        DownloadActionView::ReadBody,
        DownloadActionView::Write(
            FileWriteView {
                root: StorageRoot::Voices,
                file_name: voice_file(voice_id),
                bytes: body,
            },
        ),
        DownloadActionView::Finish(Ok(path)),
    ]);
}

/// A file is asked to be written at most once in a download, and only as
/// its third action: after the address was asked for and answered with a
/// status that is a success, and after the body was asked for and arrived.
/// The file is the voice's, under the voices root, and holds the body as it
/// came.
pub proof fn lemma_write_follows_success_and_body(
    voice_id: Seq<char>,
    events: Seq<DownloadEventView>,
    i: int,
)
    requires
        0 <= i < asked(voice_id, DownloadState::Idle, events).len(),
        asked(voice_id, DownloadState::Idle, events)[i] is Write,
    ensures
        i == 2,
        events.len() >= 3,
        events[0] == DownloadEventView::Begin,
        events[1] matches DownloadEventView::Responded(status) && 200 <= status.code() <= 299,
        asked(voice_id, DownloadState::Idle, events)[i] == DownloadActionView::Write(
            FileWriteView {
                root: StorageRoot::Voices,
                file_name: voice_file(voice_id),
                bytes: events[2]->BodyRead_0,
            },
        ),
        events[2] is BodyRead,
{
    let first = events.drop_first();
    let second = first.drop_first();
    let third = second.drop_first();
    let fourth = third.drop_first();
    let from_response = asked(voice_id, DownloadState::AwaitingResponse, first);
    let from_body = asked(voice_id, DownloadState::AwaitingBody, second);
    let from_write = asked(voice_id, DownloadState::AwaitingWrite, third);
    lemma_done_asks_nothing(voice_id, second);
    lemma_done_asks_nothing(voice_id, third);
    lemma_done_asks_nothing(voice_id, fourth);
    assert(events[0] == DownloadEventView::Begin);
    assert(asked(voice_id, DownloadState::Idle, events) == seq![
        DownloadActionView::Fetch(voice_address(voice_id)),
    ] + from_response);
    assert(i >= 1);
    assert(from_response[i - 1] is Write);
    assert(first.len() > 0);
    assert(first[0] == events[1]);
    assert(from_response.len() > 1 ==> from_response == seq![DownloadActionView::ReadBody]
        + from_body);
    assert(i >= 2);
    assert(from_body[i - 2] is Write);
    assert(second.len() > 0);
    assert(second[0] == events[2]);
    if i > 2 {
        assert(from_body.len() > 1);
        assert(from_body == seq![from_body[0]] + from_write);
        assert(from_write[i - 3] is Write);
        assert(from_write.len() <= 1);
    }
}

} // verus!
