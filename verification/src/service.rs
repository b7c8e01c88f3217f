//! The playback operations. Each begins with the read of one property and
//! is decided by the exchange in which that read ended: it yields a value,
//! or the command that has to be written next.
//!
//! Nothing here touches a byte stream. The caller sends the read, hands the
//! [`Exchange`] over, sends the command it gets back, if any, and hands that
//! command and its exchange to [`acknowledge`].

use crate::domain::{Command, Error, Property, PropertyValue};
use crate::exchange::Exchange;
use crate::title::{clean_title, cleaned, marked};
use vstd::prelude::*;

verus! {

/// The loudest volume that is ever asked for.
pub const MAX_VOLUME: i32 = 100;

/// The value that a read of `property` delivered in `exchange`.
pub open spec fn payload(exchange: Exchange, property: Property) -> Result<PropertyValue, Error> {
    match exchange.outcome() {
        Ok(response) => match response.data {
            Some(value) => Ok(value),
            None => Err(Error::MissingData(property)),
        },
        Err(error) => Err(error),
    }
}

/// The pause flag that a read of it delivered.
pub open spec fn paused(exchange: Exchange) -> Result<bool, Error> {
    match payload(exchange, Property::Pause) {
        Ok(value) => value.as_flag(),
        Err(error) => Err(error),
    }
}

/// The volume that a read of it delivered.
pub open spec fn volume(exchange: Exchange) -> Result<i32, Error> {
    match payload(exchange, Property::Volume) {
        Ok(value) => value.as_integer(),
        Err(error) => Err(error),
    }
}

/// The media title that a read of it delivered, as the player sent it.
pub open spec fn raw_media_title(exchange: Exchange) -> Result<String, Error> {
    match payload(exchange, Property::MediaTitle) {
        Ok(value) => value.as_text(),
        Err(error) => Err(error),
    }
}

/// The integer that a read of `property` delivered, or nothing where the
/// read failed in any way.
pub open spec fn count(exchange: Exchange, property: Property) -> Option<i32> {
    match payload(exchange, property) {
        Ok(value) => match value.as_integer() {
            Ok(number) => Some(number),
            Err(_) => None,
        },
        Err(_) => None,
    }
}

/// The index of the current chapter that a read of it delivered.
pub open spec fn current_chapter(exchange: Exchange) -> Option<i32> {
    count(exchange, Property::Chapter)
}

/// The number of chapters that a read of it delivered. No chapters at all
/// means that nothing is known of chapters.
pub open spec fn total_chapters(exchange: Exchange) -> Option<i32> {
    match count(exchange, Property::Chapters) {
        Some(number) => if number == 0 {
            None
        } else {
            Some(number)
        },
        None => None,
    }
}

/// The chapter that playback goes back to from chapter `current`.
pub open spec fn chapter_before(current: int) -> int {
    if current - 1 < 0 {
        current - 1
    } else {
        0
    }
}

/// By how much the volume rises from `current` when a rise of `requested`
/// is asked for: by that much, but not beyond [`MAX_VOLUME`].
pub open spec fn rise(current: int, requested: int) -> int {
    if MAX_VOLUME - current < requested {
        MAX_VOLUME - current
    } else {
        requested
    }
}

/// By how much the volume falls from `current` when a fall of `requested`
/// is asked for: by that much, but not below zero.
pub open spec fn fall(current: int, requested: int) -> int {
    if current - requested < 0 {
        current
    } else {
        requested
    }
}

/// The write of `target` to the volume.
pub open spec fn volume_write(target: int) -> Command {
    Command::SetProperty(Property::Volume, PropertyValue::Integer(target as i32))
}

/// The write of `target` to the chapter index.
pub open spec fn chapter_write(target: int) -> Command {
    Command::SetProperty(Property::Chapter, PropertyValue::Integer(target as i32))
}

/// The write that moves the volume by `delta`, if it moves at all.
pub open spec fn volume_step(current: int, delta: int) -> Option<Command> {
    if delta == 0 {
        None
    } else {
        Some(volume_write(current + delta))
    }
}

/// A raised volume is the sum of the current volume and the rise asked
/// for wherever that sum is at most [`MAX_VOLUME`], and [`MAX_VOLUME`]
/// otherwise: it never ends above it.
pub proof fn lemma_raised_volume_is_capped(current: int, requested: int)
    ensures
        current + rise(current, requested) <= MAX_VOLUME,
        current + requested <= MAX_VOLUME ==> current + rise(current, requested) == current
            + requested,
        current + requested > MAX_VOLUME ==> current + rise(current, requested) == MAX_VOLUME,
{
}

/// A lowered volume is the current volume less the fall asked for wherever
/// that difference is not negative, and zero otherwise: it never ends
/// below zero.
pub proof fn lemma_lowered_volume_is_floored(current: int, requested: int)
    ensures
        current - fall(current, requested) >= 0,
        current - requested >= 0 ==> current - fall(current, requested) == current - requested,
        current - requested < 0 ==> current - fall(current, requested) == 0,
{
}

/// A volume that already stands at its bound is left alone: nothing is
/// written to raise a volume of [`MAX_VOLUME`], nor to lower a volume of
/// zero, by any positive amount.
pub proof fn lemma_volume_at_bound_is_not_written(requested: int)
    requires
        requested > 0,
    ensures
        volume_step(MAX_VOLUME as int, rise(MAX_VOLUME as int, requested)) is None,
        volume_step(0, -fall(0, requested)) is None,
{
}

/// Where the read of the chapter index or of the chapter count breaks down
/// in any way, no chapter is reported, and that is all a caller learns.
pub proof fn lemma_chapter_reads_swallow_failures(exchange: Exchange)
    requires
        exchange.outcome() is Err,
    ensures
        current_chapter(exchange) is None,
        total_chapters(exchange) is None,
{
}

/// Takes the value out of the reply to a read of `property`.
fn read(property: Property, exchange: Exchange) -> (value: Result<PropertyValue, Error>)
    ensures
        value == payload(exchange, property),
{
    match Command::GetProperty(property).execute(exchange) {
        Ok(response) => match response.data {
            Some(value) => Ok(value),
            None => Err(Error::MissingData(property)),
        },
        Err(error) => Err(error),
    }
}

/// Takes an integer out of the reply to a read of `property`, and gives
/// nothing where there is none to take.
fn read_count(property: Property, exchange: Exchange) -> (number: Option<i32>)
    ensures
        number == count(exchange, property),
{
    match read(property, exchange) {
        Ok(value) => {
            let narrowed: Result<i32, Error> = value.try_into();
            match narrowed {
                Ok(number) => Some(number),
                Err(_) => None,
            }
        },
        Err(_) => None,
    }
}

/// Says whether playback is paused, from the exchange that read
/// [`Property::Pause`]. Fails as the exchange did, or where the reply holds
/// no value or one that is no boolean.
pub fn is_paused(exchange: Exchange) -> (flag: Result<bool, Error>)
    ensures
        flag == paused(exchange),
{
    match read(Property::Pause, exchange) {
        Ok(value) => value.try_into(),
        Err(error) => Err(error),
    }
}

/// Decides the write that toggles the pause flag, from the exchange that
/// read [`Property::Pause`]: the flag is set to the opposite of what was
/// read. Fails where [`is_paused`] does.
pub fn toggle_pause(exchange: Exchange) -> (write: Result<Command, Error>)
    ensures
        write == match paused(exchange) {
            Ok(flag) => Ok(Command::SetProperty(Property::Pause, PropertyValue::Bool(!flag))),
            Err(error) => Err(error),
        },
{
    match is_paused(exchange) {
        Ok(flag) => Ok(Command::SetProperty(Property::Pause, PropertyValue::Bool(!flag))),
        Err(error) => Err(error),
    }
}

/// Gives the index of the current chapter, from the exchange that read
/// [`Property::Chapter`]. Every failure gives `None`: a caller cannot tell
/// a player without a chapter from an exchange that broke down.
pub fn get_current_chapter(exchange: Exchange) -> (chapter: Option<i32>)
    ensures
        chapter == current_chapter(exchange),
{
    read_count(Property::Chapter, exchange)
}

/// Gives the number of chapters, from the exchange that read
/// [`Property::Chapters`]. Every failure gives `None`, and so does a count
/// of zero.
pub fn get_total_chapters(exchange: Exchange) -> (chapters: Option<i32>)
    ensures
        chapters == total_chapters(exchange),
{
    match read_count(Property::Chapters, exchange) {
        Some(number) => if number == 0 {
            None
        } else {
            Some(number)
        },
        None => None,
    }
}

/// The write that moves playback on from chapter `current`.
pub(crate) fn advance(current: i32) -> (write: Command)
    requires
        current + 1 <= i32::MAX,
    ensures
        write == chapter_write(current + 1),
{
    Command::SetProperty(Property::Chapter, PropertyValue::Integer(current + 1))
}

/// The write that moves playback back from chapter `current`.
pub(crate) fn retreat(current: i32) -> (write: Command)
    requires
        current - 1 >= i32::MIN,
    ensures
        write == chapter_write(chapter_before(current as int)),
{
    let before: i32 = current - 1;
    let target: i32 = if before < 0 {
        before
    } else {
        0
    };
    Command::SetProperty(Property::Chapter, PropertyValue::Integer(target))
}

/// Decides the write that moves playback to the next chapter, from the
/// exchange that read [`Property::Chapter`]: the index read, plus one.
/// Fails where no current chapter could be read.
pub fn play_next_chapter(exchange: Exchange) -> (write: Result<Command, Error>)
    requires
        current_chapter(exchange) matches Some(current) ==> current + 1 <= i32::MAX,
    ensures
        write == match current_chapter(exchange) {
            Some(current) => Ok(chapter_write(current + 1)),
            None => Err(Error::PreconditionFailed),
        },
{
    match get_current_chapter(exchange) {
        Some(current) => Ok(advance(current)),
        None => Err(Error::PreconditionFailed),
    }
}

/// Decides the write that moves playback back, from the exchange that read
/// [`Property::Chapter`]: the smaller of zero and the index read minus one.
/// Fails where no current chapter could be read.
pub fn play_previous_chapter(exchange: Exchange) -> (write: Result<Command, Error>)
    requires
        current_chapter(exchange) matches Some(current) ==> current - 1 >= i32::MIN,
    ensures
        write == match current_chapter(exchange) {
            Some(current) => Ok(chapter_write(chapter_before(current as int))),
            None => Err(Error::PreconditionFailed),
        },
{
    match get_current_chapter(exchange) {
        Some(current) => Ok(retreat(current)),
        None => Err(Error::PreconditionFailed),
    }
}

/// Gives the volume, from the exchange that read [`Property::Volume`].
/// Fails as the exchange did, or where the reply holds no value or one that
/// is no number.
pub fn get_volume(exchange: Exchange) -> (level: Result<i32, Error>)
    ensures
        level == volume(exchange),
{
    match read(Property::Volume, exchange) {
        Ok(value) => value.try_into(),
        Err(error) => Err(error),
    }
}

/// Says whether the volume raised from `current` by `requested` is a 32-bit
/// signed integer.
pub(crate) fn can_raise(current: i32, requested: i32) -> (fits: bool)
    ensures
        fits == (current + rise(current as int, requested as int) >= i32::MIN),
{
    let room: i64 = MAX_VOLUME as i64 - current as i64;
    room < requested as i64 || current as i64 + requested as i64 >= i32::MIN as i64
}

/// Says whether the volume lowered from `current` by `requested` is a 32-bit
/// signed integer.
pub(crate) fn can_lower(current: i32, requested: i32) -> (fits: bool)
    ensures
        fits == (current - fall(current as int, requested as int) <= i32::MAX),
{
    let remainder: i64 = current as i64 - requested as i64;
    remainder <= i32::MAX as i64
}

/// The write that raises the volume from `current` by `requested`, held at
/// [`MAX_VOLUME`]; none where the volume would stay as it is.
pub(crate) fn raise(current: i32, requested: i32) -> (write: Option<Command>)
    requires
        current + rise(current as int, requested as int) >= i32::MIN,
    ensures
        write == volume_step(current as int, rise(current as int, requested as int)),
        write matches Some(Command::SetProperty(_, PropertyValue::Integer(target))) ==> target
            <= MAX_VOLUME,
{
    let room: i64 = MAX_VOLUME as i64 - current as i64;
    let delta: i64 = if room < requested as i64 {
        room
    } else {
        requested as i64
    };
    if delta == 0 {
        None
    } else {
        let target: i64 = current as i64 + delta;
        Some(Command::SetProperty(Property::Volume, PropertyValue::Integer(target as i32)))
    }
}

/// The write that lowers the volume from `current` by `requested`, held at
/// zero; none where the volume would stay as it is.
pub(crate) fn lower(current: i32, requested: i32) -> (write: Option<Command>)
    requires
        current - fall(current as int, requested as int) <= i32::MAX,
    ensures
        write == volume_step(current as int, -fall(current as int, requested as int)),
        write matches Some(Command::SetProperty(_, PropertyValue::Integer(target))) ==> target
            >= 0,
{
    let remainder: i64 = current as i64 - requested as i64;
    let delta: i64 = if remainder < 0 {
        current as i64
    } else {
        requested as i64
    };
    if delta == 0 {
        None
    } else {
        let target: i64 = current as i64 - delta;
        Some(Command::SetProperty(Property::Volume, PropertyValue::Integer(target as i32)))
    }
}

/// Decides the write that raises the volume by `value`, from the exchange
/// that read [`Property::Volume`]. The rise is cut so that the volume ends
/// at [`MAX_VOLUME`] at most; where nothing is left of it, nothing is
/// written. Fails where [`get_volume`] does.
pub fn increase_volume(exchange: Exchange, value: i32) -> (write: Result<Option<Command>, Error>)
    requires
        volume(exchange) matches Ok(current) ==> current + rise(current as int, value as int)
            >= i32::MIN,
    ensures
        write == match volume(exchange) {
            Ok(current) => Ok(volume_step(current as int, rise(current as int, value as int))),
            Err(error) => Err(error),
        },
        write matches Ok(Some(Command::SetProperty(_, PropertyValue::Integer(target))))
            ==> target <= MAX_VOLUME,
{
    match get_volume(exchange) {
        Ok(current) => Ok(raise(current, value)),
        Err(error) => Err(error),
    }
}

/// Decides the write that lowers the volume by `value`, from the exchange
/// that read [`Property::Volume`]. The fall is cut so that the volume ends
/// at zero at least; where nothing is left of it, nothing is written. Fails
/// where [`get_volume`] does.
pub fn decrease_volume(exchange: Exchange, value: i32) -> (write: Result<Option<Command>, Error>)
    requires
        volume(exchange) matches Ok(current) ==> current - fall(current as int, value as int)
            <= i32::MAX,
    ensures
        write == match volume(exchange) {
            Ok(current) => Ok(volume_step(current as int, -fall(current as int, value as int))),
            Err(error) => Err(error),
        },
        write matches Ok(Some(Command::SetProperty(_, PropertyValue::Integer(target))))
            ==> target >= 0,
{
    match get_volume(exchange) {
        Ok(current) => Ok(lower(current, value)),
        Err(error) => Err(error),
    }
}

/// Gives the media title as the player sent it, from the exchange that read
/// [`Property::MediaTitle`]. Fails as the exchange did, or where the reply
/// holds no value or one that is no text.
pub fn get_raw_media_title(exchange: Exchange) -> (title: Result<String, Error>)
    ensures
        title == raw_media_title(exchange),
{
    match read(Property::MediaTitle, exchange) {
        Ok(value) => value.try_into(),
        Err(error) => Err(error),
    }
}

/// Gives the media title in its clean form, from the exchange that read
/// [`Property::MediaTitle`]. Fails where [`get_raw_media_title`] does, and
/// with [`Error::EmptyTitle`] where cleaning leaves nothing.
pub fn get_clean_media_title(exchange: Exchange) -> (title: Result<String, Error>)
    ensures
        match raw_media_title(exchange) {
            Ok(raw) => if cleaned(marked(raw@)).len() == 0 {
                title == Err::<String, Error>(Error::EmptyTitle)
            } else {
                title is Ok && title->Ok_0@ == cleaned(marked(raw@))
            },
            Err(error) => title == Err::<String, Error>(error),
        },
{
    match get_raw_media_title(exchange) {
        Ok(raw) => match clean_title(raw.as_str()) {
            Some(title) => Ok(title),
            None => Err(Error::EmptyTitle),
        },
        Err(error) => Err(error),
    }
}

/// Concludes the write `command`, from the exchange in which it ended: the
/// write succeeded where a response came back, whatever the response holds,
/// and failed as the exchange did otherwise.
pub fn acknowledge(command: &Command, exchange: Exchange) -> (done: Result<(), Error>)
    ensures
        done == match exchange.outcome() {
            Ok(_) => Ok::<(), Error>(()),
            Err(error) => Err(error),
        },
{
    match command.execute(exchange) {
        Ok(_) => Ok(()),
        Err(error) => Err(error),
    }
}

} // verus!
