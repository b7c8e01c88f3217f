//! The operations as a protocol for whoever owns the byte stream.
//!
//! An [`Operation`] is run in two moves. The driver sends the command that
//! [`Operation::query`] names and hands the exchange to
//! [`Operation::react`], which either finishes the operation or names one
//! command to write. The driver sends that command and concludes with
//! [`acknowledge`](crate::service::acknowledge). No operation takes more
//! than these two exchanges, and none repeats one.

use crate::domain::{Command, Error, Property, PropertyValue};
use crate::exchange::Exchange;
use crate::framing::is_full_line;
use crate::service::{
    advance, can_lower, can_raise, chapter_before, chapter_write, current_chapter, fall,
    get_clean_media_title, get_current_chapter, get_raw_media_title, get_total_chapters,
    get_volume, is_paused, lower, paused, raise, raw_media_title, retreat, rise, toggle_pause,
    total_chapters, volume, volume_step,
};
use crate::title::{cleaned, marked};
use vstd::prelude::*;

verus! {

/// What a caller can ask of the player.
#[derive(Clone, Copy, Debug, PartialEq, Eq, Structural)]
pub enum Operation {
    TogglePause,
    IsPaused,
    PlayNextChapter,
    PlayPreviousChapter,
    GetCurrentChapter,
    GetTotalChapters,
    GetCleanMediaTitle,
    GetRawMediaTitle,
    IncreaseVolume(i32),
    DecreaseVolume(i32),
    GetVolume,
}

/// What a finished operation has to say.
#[derive(Debug, PartialEq)]
pub enum Answer {
    /// There is nothing to report: the operation had nothing to write.
    Done,
    /// The pause flag.
    Paused(bool),
    /// A chapter index or a chapter count, where one is known.
    Chapter(Option<i32>),
    /// A media title.
    Title(String),
    /// The volume.
    Volume(i32),
}

/// What an [`Answer`] holds, with text as a sequence of characters.
pub enum AnswerView {
    Done,
    Paused(bool),
    Chapter(Option<i32>),
    Title(Seq<char>),
    Volume(i32),
}

impl View for Answer {
    type V = AnswerView;

    open spec fn view(&self) -> AnswerView {
        match *self {
            Answer::Done => AnswerView::Done,
            Answer::Paused(flag) => AnswerView::Paused(flag),
            Answer::Chapter(chapter) => AnswerView::Chapter(chapter),
            Answer::Title(title) => AnswerView::Title(title@),
            Answer::Volume(level) => AnswerView::Volume(level),
        }
    }
}

/// How an operation goes on after its read.
#[derive(Debug, PartialEq)]
pub enum Step {
    /// This command has to be written; the operation ends with it.
    Send(Command),
    /// The operation has ended, with this result.
    Finish(Result<Answer, Error>),
}

/// What a [`Step`] holds, with text as a sequence of characters.
pub enum StepView {
    Send(Command),
    Finish(Result<AnswerView, Error>),
}

impl View for Step {
    type V = StepView;

    open spec fn view(&self) -> StepView {
        match *self {
            Step::Send(command) => StepView::Send(command),
            Step::Finish(Ok(answer)) => StepView::Finish(Ok(answer@)),
            Step::Finish(Err(error)) => StepView::Finish(Err(error)),
        }
    }
}

/// The step that ends an operation with the value `found`, presented as
/// `present` says, or with the failure to find one.
pub open spec fn finish<T>(found: Result<T, Error>, present: spec_fn(T) -> AnswerView) -> StepView {
    match found {
        Ok(value) => StepView::Finish(Ok(present(value))),
        Err(error) => StepView::Finish(Err(error)),
    }
}

/// The step that writes `write`, or ends the operation where there is
/// nothing to write.
pub open spec fn send_or_rest(write: Option<Command>) -> StepView {
    match write {
        Some(command) => StepView::Send(command),
        None => StepView::Finish(Ok(AnswerView::Done)),
    }
}

impl Operation {
    /// The property whose read begins the operation.
    pub open spec fn subject(self) -> Property {
        match self {
            Operation::TogglePause | Operation::IsPaused => Property::Pause,
            Operation::PlayNextChapter | Operation::PlayPreviousChapter
            | Operation::GetCurrentChapter => Property::Chapter,
            Operation::GetTotalChapters => Property::Chapters,
            Operation::GetCleanMediaTitle | Operation::GetRawMediaTitle => Property::MediaTitle,
            Operation::IncreaseVolume(_) | Operation::DecreaseVolume(_)
            | Operation::GetVolume => Property::Volume,
        }
    }

    /// The command that begins the operation: the read of its subject.
    pub fn query(&self) -> (command: Command)
        ensures
            command == Command::GetProperty(self.subject()),
    {
        match self {
            Operation::TogglePause | Operation::IsPaused => Command::GetProperty(Property::Pause),
            Operation::PlayNextChapter | Operation::PlayPreviousChapter
            | Operation::GetCurrentChapter => Command::GetProperty(Property::Chapter),
            Operation::GetTotalChapters => Command::GetProperty(Property::Chapters),
            Operation::GetCleanMediaTitle | Operation::GetRawMediaTitle => Command::GetProperty(
                Property::MediaTitle,
            ),
            Operation::IncreaseVolume(_) | Operation::DecreaseVolume(_)
            | Operation::GetVolume => Command::GetProperty(Property::Volume),
        }
    }

    /// Whether the value that the operation would write after `exchange`
    /// is a 32-bit signed integer. It always is, unless the player reports
    /// a chapter or a volume at the very end of the integer range.
    pub open spec fn admits(self, exchange: Exchange) -> bool {
        match self {
            Operation::PlayNextChapter => current_chapter(exchange) matches Some(current)
                ==> current + 1 <= i32::MAX,
            Operation::PlayPreviousChapter => current_chapter(exchange) matches Some(current)
                ==> current - 1 >= i32::MIN,
            Operation::IncreaseVolume(value) => volume(exchange) matches Ok(current) ==> current
                + rise(current as int, value as int) >= i32::MIN,
            Operation::DecreaseVolume(value) => volume(exchange) matches Ok(current) ==> current
                - fall(current as int, value as int) <= i32::MAX,
            _ => true,
        }
    }

    /// How the operation goes on after its read ended in `exchange`.
    pub open spec fn reaction(self, exchange: Exchange) -> StepView {
        match self {
            Operation::TogglePause => match paused(exchange) {
                Ok(flag) => StepView::Send(
                    Command::SetProperty(Property::Pause, PropertyValue::Bool(!flag)),
                ),
                Err(error) => StepView::Finish(Err(error)),
            },
            Operation::IsPaused => finish(paused(exchange), |flag: bool| AnswerView::Paused(flag)),
            Operation::PlayNextChapter => match current_chapter(exchange) {
                Some(current) => StepView::Send(chapter_write(current + 1)),
                None => StepView::Finish(Err(Error::PreconditionFailed)),
            },
            Operation::PlayPreviousChapter => match current_chapter(exchange) {
                Some(current) => StepView::Send(chapter_write(chapter_before(current as int))),
                None => StepView::Finish(Err(Error::PreconditionFailed)),
            },
            Operation::GetCurrentChapter => StepView::Finish(
                Ok(AnswerView::Chapter(current_chapter(exchange))),
            ),
            Operation::GetTotalChapters => StepView::Finish(
                Ok(AnswerView::Chapter(total_chapters(exchange))),
            ),
            Operation::GetCleanMediaTitle => match raw_media_title(exchange) {
                Ok(raw) => if cleaned(marked(raw@)).len() == 0 {
                    StepView::Finish(Err(Error::EmptyTitle))
                } else {
                    StepView::Finish(Ok(AnswerView::Title(cleaned(marked(raw@)))))
                },
                Err(error) => StepView::Finish(Err(error)),
            },
            Operation::GetRawMediaTitle => finish(
                raw_media_title(exchange),
                |title: String| AnswerView::Title(title@),
            ),
            Operation::IncreaseVolume(value) => match volume(exchange) {
                Ok(current) => send_or_rest(
                    volume_step(current as int, rise(current as int, value as int)),
                ),
                Err(error) => StepView::Finish(Err(error)),
            },
            Operation::DecreaseVolume(value) => match volume(exchange) {
                Ok(current) => send_or_rest(
                    volume_step(current as int, -fall(current as int, value as int)),
                ),
                Err(error) => StepView::Finish(Err(error)),
            },
            Operation::GetVolume => finish(volume(exchange), |level: i32| AnswerView::Volume(level)),
        }
    }

    /// Reacts to the exchange in which the operation's read ended: finishes
    /// the operation, or names the one command that it has yet to write.
    /// Gives `None` where that command would have to carry a value outside
    /// the range of a 32-bit signed integer.
    pub fn react(&self, exchange: Exchange) -> (next: Option<Step>)
        ensures
            self.admits(exchange) ==> next is Some && next->0@ == self.reaction(exchange),
            !self.admits(exchange) ==> next is None,
    {
        match self {
            Operation::TogglePause => match toggle_pause(exchange) {
                Ok(write) => Some(Step::Send(write)),
                Err(error) => Some(Step::Finish(Err(error))),
            },
            Operation::IsPaused => match is_paused(exchange) {
                Ok(flag) => Some(Step::Finish(Ok(Answer::Paused(flag)))),
                Err(error) => Some(Step::Finish(Err(error))),
            },
            Operation::PlayNextChapter => match get_current_chapter(exchange) {
                Some(current) => if current < i32::MAX {
                    Some(Step::Send(advance(current)))
                } else {
                    None
                },
                None => Some(Step::Finish(Err(Error::PreconditionFailed))),
            },
            Operation::PlayPreviousChapter => match get_current_chapter(exchange) {
                Some(current) => if current > i32::MIN {
                    Some(Step::Send(retreat(current)))
                } else {
                    None
                },
                None => Some(Step::Finish(Err(Error::PreconditionFailed))),
            },
            Operation::GetCurrentChapter => Some(
                Step::Finish(Ok(Answer::Chapter(get_current_chapter(exchange)))),
            ),
            Operation::GetTotalChapters => Some(
                Step::Finish(Ok(Answer::Chapter(get_total_chapters(exchange)))),
            ),
            Operation::GetCleanMediaTitle => match get_clean_media_title(exchange) {
                Ok(title) => Some(Step::Finish(Ok(Answer::Title(title)))),
                Err(error) => Some(Step::Finish(Err(error))),
            },
            Operation::GetRawMediaTitle => match get_raw_media_title(exchange) {
                Ok(title) => Some(Step::Finish(Ok(Answer::Title(title)))),
                Err(error) => Some(Step::Finish(Err(error))),
            },
            Operation::IncreaseVolume(value) => match get_volume(exchange) {
                Ok(current) => if can_raise(current, *value) {
                    Some(rest_or_send(raise(current, *value)))
                } else {
                    None
                },
                Err(error) => Some(Step::Finish(Err(error))),
            },
            Operation::DecreaseVolume(value) => match get_volume(exchange) {
                Ok(current) => if can_lower(current, *value) {
                    Some(rest_or_send(lower(current, *value)))
                } else {
                    None
                },
                Err(error) => Some(Step::Finish(Err(error))),
            },
            Operation::GetVolume => match get_volume(exchange) {
                Ok(level) => Some(Step::Finish(Ok(Answer::Volume(level)))),
                Err(error) => Some(Step::Finish(Err(error))),
            },
        }
    }
}

/// An exchange that breaks down fails every operation that does not read a
/// chapter, and with the failure of the exchange itself: the stream failed
/// or was closed too early, or the reply was no response envelope. Nothing
/// is written after it.
pub proof fn lemma_broken_exchange_fails_operation(operation: Operation, exchange: Exchange)
    requires
        exchange.outcome() is Err,
        operation.subject() != Property::Chapter,
        operation.subject() != Property::Chapters,
    ensures
        operation.admits(exchange),
        operation.reaction(exchange) == StepView::Finish(Err(exchange.outcome()->Err_0)),
        exchange.outcome()->Err_0 is Transport || exchange.outcome()->Err_0 is Decode,
{
}

/// A stream that fails or is closed before the request line is written, or
/// before a full reply line is read, fails every operation that does not
/// read a chapter, and the failure names the transport.
pub proof fn lemma_closed_transport_fails_operation(operation: Operation, exchange: Exchange)
    requires
        exchange is WriteFailed || exchange is ReadFailed || !is_full_line(exchange->line@),
        operation.subject() != Property::Chapter,
        operation.subject() != Property::Chapters,
    ensures
        operation.admits(exchange),
        operation.reaction(exchange) matches StepView::Finish(Err(Error::Transport(_))),
{
}

/// An exchange that breaks down ends the operations that step from chapter
/// to chapter with the failure of their precondition, and the reads of
/// chapters with no chapter.
pub proof fn lemma_broken_exchange_ends_chapter_operation(
    operation: Operation,
    exchange: Exchange,
)
    requires
        exchange.outcome() is Err,
        operation.subject() == Property::Chapter || operation.subject() == Property::Chapters,
    ensures
        operation.admits(exchange),
        operation.reaction(exchange) == if operation == Operation::PlayNextChapter || operation
            == Operation::PlayPreviousChapter {
            StepView::Finish(Err::<AnswerView, Error>(Error::PreconditionFailed))
        } else {
            StepView::Finish(Ok::<AnswerView, Error>(AnswerView::Chapter(None)))
        },
{
}

/// Only the operations that change the player's state ever write, and what
/// they write is a value for the property that they read.
pub proof fn lemma_writes_go_to_the_subject(operation: Operation, exchange: Exchange)
    requires
        operation.reaction(exchange) is Send,
    ensures
        operation == Operation::TogglePause || operation == Operation::PlayNextChapter
            || operation == Operation::PlayPreviousChapter || operation is IncreaseVolume
            || operation is DecreaseVolume,
        operation.reaction(exchange)->Send_0 is SetProperty,
        operation.reaction(exchange)->Send_0.property() == operation.subject(),
{
}

/// The step that writes `write`, or ends the operation where there is
/// nothing to write.
fn rest_or_send(write: Option<Command>) -> (step: Step)
    ensures
        step@ == send_or_rest(write),
{
    match write {
        Some(command) => Step::Send(command),
        None => Step::Finish(Ok(Answer::Done)),
    }
}

} // verus!
