//! One archive transfer: where it is fetched from, how far it has come, and
//! what is reported when a phase of it fails.

use vstd::prelude::*;
use vstd::string::StringExecFns;

verus! {

/// The phase of a transfer that failed.
#[derive(Debug, Clone, Copy, PartialEq, Eq, Structural)]
pub enum DownloadFailure {
    /// The request could not be sent.
    Request,
    /// The server declared no content length.
    ContentLength,
    /// The destination file could not be created.
    CreateFile,
    /// A part of the body could not be received.
    Receive,
    /// A part of the body could not be written to the file.
    Write,
}

/// The release URL of a font's archive.
pub open spec fn archive_url_of(font_name: Seq<char>, version: Seq<char>) -> Seq<char> {
    "https://github.com/ryanoasis/nerd-fonts/releases/download/v"@ + version + "/"@ + font_name
        + ".zip"@
}

/// The file name under which a font's archive is kept.
pub open spec fn archive_file_name_of(font_name: Seq<char>) -> Seq<char> {
    font_name + ".zip"@
}

/// What is reported when `phase` of the transfer of `font_name` fails.
pub open spec fn failure_message_of(phase: DownloadFailure, font_name: Seq<char>) -> Seq<char> {
    match phase {
        DownloadFailure::Request => "Failed to GET font '"@ + font_name + "'"@,
        DownloadFailure::ContentLength => "Failed to get Content Length for font "@ + font_name,
        DownloadFailure::CreateFile => "failed to create file for font '"@ + font_name + "'"@,
        DownloadFailure::Receive => "Error while downloading font "@ + font_name,
        DownloadFailure::Write => "Error while saving font "@ + font_name,
    }
}

/// The byte count after `chunk_len` more bytes, never beyond `total_size`.
pub open spec fn advanced(downloaded: u64, chunk_len: usize, total_size: u64) -> int {
    if downloaded + chunk_len <= total_size {
        downloaded + chunk_len
    } else {
        total_size as int
    }
}

/// Where a transfer stands. Byte counts are `received` of `total`.
#[derive(Debug, Clone, Copy, PartialEq, Eq, Structural)]
pub enum TransferStage {
    /// The request has been sent; the response is awaited.
    Requesting,
    /// The size is known; the destination file is being created.
    Creating { total: u64 },
    /// The next part of the body is awaited.
    Receiving { total: u64, received: u64 },
    /// A part of `chunk_len` bytes is being written to the file.
    Writing { total: u64, received: u64, chunk_len: usize },
    /// The whole body has been saved.
    Complete { total: u64 },
    /// A phase failed.
    Failed(DownloadFailure),
}

/// How the last action of a transfer went.
#[derive(Debug, Clone, Copy, PartialEq, Eq, Structural)]
pub enum TransferEvent {
    /// The response came, with the content length that it declares, if any.
    Response(Option<u64>),
    /// The destination file was created.
    Created,
    /// A part of the body came, of this many bytes.
    Chunk(usize),
    /// The part was written to the file.
    Written,
    /// The body has ended.
    End,
    /// The action failed.
    Failed,
}

/// What the outside has to do next for a transfer.
#[derive(Debug, Clone, Copy, PartialEq, Eq, Structural)]
pub enum TransferAction {
    /// Send the request.
    Request,
    /// Create the destination file, emptying it if it exists.
    Create,
    /// Show `position` as the progress, and wait for the next part.
    Receive { position: u64 },
    /// Append the part to the file.
    Write,
    /// Report success.
    Finish,
    /// Report the failure of this phase.
    Abort(DownloadFailure),
}

/// The action that a stage waits for.
pub open spec fn transfer_awaited(stage: TransferStage) -> TransferAction {
    match stage {
        TransferStage::Requesting => TransferAction::Request,
        TransferStage::Creating { .. } => TransferAction::Create,
        TransferStage::Receiving { received, .. } => TransferAction::Receive { position: received },
        TransferStage::Writing { .. } => TransferAction::Write,
        TransferStage::Complete { .. } => TransferAction::Finish,
        TransferStage::Failed(phase) => TransferAction::Abort(phase),
    }
}

/// Whether a transfer has ended.
pub open spec fn transfer_ended(stage: TransferStage) -> bool {
    stage is Complete || stage is Failed
}

/// The stage after `event`.
///
/// A transfer that has ended stays as it is. A failure, or a response
/// without a content length, fails the transfer in the phase at which it
/// stands. The success that the stage waits for moves it on; after a part
/// has been written the byte count grows by its length, up to the total. Any
/// other event changes nothing.
pub open spec fn transfer_next(stage: TransferStage, event: TransferEvent) -> TransferStage {
    match (stage, event) {
        (TransferStage::Complete { .. }, _) => stage,
        (TransferStage::Failed(_), _) => stage,
        (TransferStage::Requesting, TransferEvent::Failed) => TransferStage::Failed(
            DownloadFailure::Request,
        ),
        (TransferStage::Creating { .. }, TransferEvent::Failed) => TransferStage::Failed(
            DownloadFailure::CreateFile,
        ),
        (TransferStage::Receiving { .. }, TransferEvent::Failed) => TransferStage::Failed(
            DownloadFailure::Receive,
        ),
        (TransferStage::Writing { .. }, TransferEvent::Failed) => TransferStage::Failed(
            DownloadFailure::Write,
        ),
        (TransferStage::Requesting, TransferEvent::Response(Some(total))) => TransferStage::Creating {
            total,
        },
        (TransferStage::Requesting, TransferEvent::Response(None)) => TransferStage::Failed(
            DownloadFailure::ContentLength,
        ),
        (TransferStage::Creating { total }, TransferEvent::Created) => TransferStage::Receiving {
            total,
            received: 0,
        },
        (
            TransferStage::Receiving { total, received },
            TransferEvent::Chunk(chunk_len),
        ) => TransferStage::Writing { total, received, chunk_len },
        (TransferStage::Receiving { total, .. }, TransferEvent::End) => TransferStage::Complete {
            total,
        },
        (
            TransferStage::Writing { total, received, chunk_len },
            TransferEvent::Written,
        ) => TransferStage::Receiving {
            total,
            received: advanced(received, chunk_len, total) as u64,
        },
        _ => stage,
    }
}

/// The bytes counted so far at a stage.
pub open spec fn received_at(stage: TransferStage) -> int {
    match stage {
        TransferStage::Receiving { received, .. } => received as int,
        TransferStage::Writing { received, .. } => received as int,
        TransferStage::Complete { total } => total as int,
        _ => 0,
    }
}

/// The byte count of a stage is within its total.
pub open spec fn within_total(stage: TransferStage) -> bool {
    match stage {
        TransferStage::Receiving { total, received } => received <= total,
        TransferStage::Writing { total, received, .. } => received <= total,
        _ => true,
    }
}

/// The rules of one archive transfer.
#[derive(Debug)]
pub struct FontDownloader;

impl FontDownloader {
    /// The address an archive is fetched from: the release of `version`, and
    /// in it the archive named after the font.
    pub fn archive_url(font_name: &str, version: &str) -> (url: String)
        ensures
            url@ == archive_url_of(font_name@, version@),
    {
        let mut url = "https://github.com/ryanoasis/nerd-fonts/releases/download/v".to_owned();
        url.append(version);
        url.append("/");
        url.append(font_name);
        url.append(".zip");
        url
    }

    /// The name of the file that a font's archive is saved to.
    pub fn archive_file_name(font_name: &str) -> (name: String)
        ensures
            name@ == archive_file_name_of(font_name@),
    {
        let mut name = font_name.to_owned();
        name.append(".zip");
        name
    }

    /// The size to expect, which the server has to declare: a response
    /// without a content length fails the transfer.
    pub fn total_size(content_length: Option<u64>) -> (size: Result<u64, DownloadFailure>)
        ensures
            content_length is Some ==> size == Ok::<u64, DownloadFailure>(content_length->0),
            content_length is None ==> size == Err::<u64, DownloadFailure>(
                DownloadFailure::ContentLength,
            ),
    {
        match content_length {
            Some(total) => Ok(total),
            None => Err(DownloadFailure::ContentLength),
        }
    }

    /// The byte counter after a chunk of `chunk_len` bytes has been written:
    /// it grows by the chunk's length and stops at `total_size`.
    pub fn advance(downloaded: u64, chunk_len: usize, total_size: u64) -> (position: u64)
        ensures
            position == advanced(downloaded, chunk_len, total_size),
            position <= total_size,
            downloaded <= total_size ==> downloaded <= position,
    {
        if downloaded >= total_size {
            total_size
        } else if chunk_len as u64 >= total_size - downloaded {
            total_size
        } else {
            downloaded + chunk_len as u64
        }
    }

    /// The first stage of a transfer and its first action.
    pub fn begin() -> (first: (TransferStage, TransferAction))
        ensures
            first == (TransferStage::Requesting, TransferAction::Request),
    {
        (TransferStage::Requesting, TransferAction::Request)
    }

    /// Takes in how the last action went: the stage after it, and the
    /// action that this stage waits for.
    pub fn step(stage: TransferStage, event: TransferEvent) -> (next: (
        TransferStage,
        TransferAction,
    ))
        ensures
            next.0 == transfer_next(stage, event),
            next.1 == transfer_awaited(next.0),
    {
        let after = match stage {
            TransferStage::Complete { .. } => stage,
            TransferStage::Failed(_) => stage,
            TransferStage::Requesting => match event {
                TransferEvent::Failed => TransferStage::Failed(DownloadFailure::Request),
                TransferEvent::Response(content_length) => match Self::total_size(content_length) {
                    Ok(total) => TransferStage::Creating { total },
                    Err(phase) => TransferStage::Failed(phase),
                },
                _ => stage,
            },
            TransferStage::Creating { total } => match event {
                TransferEvent::Failed => TransferStage::Failed(DownloadFailure::CreateFile),
                TransferEvent::Created => TransferStage::Receiving { total, received: 0 },
                _ => stage,
            },
            TransferStage::Receiving { total, received } => match event {
                TransferEvent::Failed => TransferStage::Failed(DownloadFailure::Receive),
                TransferEvent::Chunk(chunk_len) => TransferStage::Writing {
                    total,
                    received,
                    chunk_len,
                },
                TransferEvent::End => TransferStage::Complete { total },
                _ => stage,
            },
            TransferStage::Writing { total, received, chunk_len } => match event {
                TransferEvent::Failed => TransferStage::Failed(DownloadFailure::Write),
                TransferEvent::Written => TransferStage::Receiving {
                    total,
                    received: Self::advance(received, chunk_len, total),
                },
                _ => stage,
            },
        };
        let action = match after {
            TransferStage::Requesting => TransferAction::Request,
            TransferStage::Creating { .. } => TransferAction::Create,
            TransferStage::Receiving { received, .. } => TransferAction::Receive {
                position: received,
            },
            TransferStage::Writing { .. } => TransferAction::Write,
            TransferStage::Complete { .. } => TransferAction::Finish,
            TransferStage::Failed(phase) => TransferAction::Abort(phase),
        };
        (after, action)
    }

    /// What the progress display says while a font is being fetched.
    pub fn progress_message(font_name: &str) -> (message: String)
        ensures
            message@ == "Downloading "@ + font_name@,
    {
        let mut message = "Downloading ".to_owned();
        message.append(font_name);
        message
    }

    /// What the progress display says once the archive has been saved.
    pub fn finish_message(font_name: &str, destination_path: &str) -> (message: String)
        ensures
            message@ == "Downloaded "@ + font_name@ + " to "@ + destination_path@,
    {
        let mut message = "Downloaded ".to_owned();
        message.append(font_name);
        message.append(" to ");
        message.append(destination_path);
        message
    }

    /// The context reported with the failure of one phase of a transfer.
    pub fn failure_message(phase: DownloadFailure, font_name: &str) -> (message: String)
        ensures
            message@ == failure_message_of(phase, font_name@),
    {
        match phase {
            DownloadFailure::Request => {
                let mut message = "Failed to GET font '".to_owned();
                message.append(font_name);
                message.append("'");
                message
            },
            DownloadFailure::ContentLength => {
                let mut message = "Failed to get Content Length for font ".to_owned();
                message.append(font_name);
                message
            },
            DownloadFailure::CreateFile => {
                let mut message = "failed to create file for font '".to_owned();
                message.append(font_name);
                message.append("'");
                message
            },
            DownloadFailure::Receive => {
                let mut message = "Error while downloading font ".to_owned();
                message.append(font_name);
                message
            },
            DownloadFailure::Write => {
                let mut message = "Error while saving font ".to_owned();
                message.append(font_name);
                message
            },
        }
    }
}

/// The counter never falls while it is within the total, and a second chunk
/// continues from where the first one stopped.
pub proof fn law_counter_is_monotonic(downloaded: u64, first: usize, second: usize, total_size: u64)
    requires
        downloaded <= total_size,
    ensures
        downloaded <= advanced(downloaded, first, total_size) <= total_size,
        advanced(advanced(downloaded, first, total_size) as u64, second, total_size) == if downloaded
            + first + second <= total_size {
            downloaded + first + second
        } else {
            total_size as int
        },
{
}

/// The byte count of a transfer stays within the total and never falls.
pub proof fn law_transfer_counts_upwards(stage: TransferStage, event: TransferEvent)
    requires
        within_total(stage),
    ensures
        within_total(transfer_next(stage, event)),
        transfer_next(stage, event) is Failed || received_at(stage) <= received_at(
            transfer_next(stage, event),
        ),
{
}

/// A transfer completes only from the stage that waits for the next part,
/// and only when the body ends: no failure and no missing content length
/// leads to completion.
pub proof fn law_transfer_completes_at_the_end(stage: TransferStage, event: TransferEvent)
    requires
        !(stage is Complete),
        transfer_next(stage, event) is Complete,
    ensures
        stage is Receiving,
        event == TransferEvent::End,
{
}

/// A transfer that has ended stays as it is, whatever comes.
pub proof fn law_transfer_end_is_final(stage: TransferStage, event: TransferEvent)
    requires
        transfer_ended(stage),
    ensures
        transfer_next(stage, event) == stage,
{
}

} // verus!
