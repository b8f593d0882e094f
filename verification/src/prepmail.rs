//! The text preparer: from a resolved profile to the subject and the body of
//! the message.

use crate::calendar::next_date_from;
use crate::calendar::next_date_text;
use crate::calendar::parse_weekday;
use crate::calendar::weekday_named;
use crate::calendar::Date;
use crate::calendar::Day;
use crate::error::Field;
use crate::error::PrepareError;
use crate::profile::Profile;
use crate::profile::ProfileView;
use crate::records::capture;
use crate::records::captured;
use crate::records::date_key;
use crate::records::CaptureDict;
use crate::records::DataFile;
use crate::template::apply_template;
use crate::template::rendered;
use crate::template::template_tokens;
use vstd::prelude::*;

verus! {

/// The profile that is handed on after the text is prepared: the fields that
/// the preparation used are taken out of it. `format` is used only with an
/// `event_file`.
pub open spec fn consumed(settings: ProfileView) -> ProfileView {
    ProfileView {
        body: None,
        subject: None,
        date_spec: None,
        event_file: None,
        format: if settings.event_file is Some {
            None
        } else {
            settings.format
        },
        ..settings
    }
}

/// The dictionary that the templates are filled from. With an `event_file`
/// it is the record of the date in the file's lines, found with the pattern
/// `format`; without one it holds the date alone.
pub open spec fn dictionary(
    settings: ProfileView,
    date: Seq<char>,
    lines: Seq<Seq<char>>,
    failed: bool,
) -> Result<Map<Seq<char>, Seq<char>>, PrepareError> {
    match settings.event_file {
        Some(_) => match settings.format {
            Some(pattern) => captured(pattern, lines, failed, date),
            None => Err(PrepareError::MissingRequiredField(Field::Format)),
        },
        None => Ok(Map::empty().insert(date_key(), date)),
    }
}

/// The prepared text: the profile that is handed on, the body and the
/// subject, or the first failure on the way. The steps, in order: `body`,
/// `subject` and `date_spec` must be set; `date_spec` must name a weekday;
/// the date of its next occurrence from `today` on is the target date; the
/// dictionary is made; body and subject are expanded with it.
pub open spec fn prepared(
    settings: ProfileView,
    today: Day,
    lines: Seq<Seq<char>>,
    failed: bool,
) -> Result<(ProfileView, Seq<char>, Seq<char>), PrepareError> {
    if settings.body is None {
        Err(PrepareError::MissingRequiredField(Field::Body))
    } else if settings.subject is None {
        Err(PrepareError::MissingRequiredField(Field::Subject))
    } else if settings.date_spec is None {
        Err(PrepareError::MissingRequiredField(Field::DateSpec))
    } else {
        match weekday_named(settings.date_spec.unwrap()) {
            None => Err(PrepareError::UnparsableWeekday),
            Some(day) => match next_date_text(day, today) {
                None => Err(PrepareError::DateOutOfRange),
                Some(date) => match dictionary(settings, date, lines, failed) {
                    Err(error) => Err(error),
                    Ok(dict) => Ok(
                        (
                            consumed(settings),
                            rendered(template_tokens(settings.body.unwrap()), dict),
                            rendered(template_tokens(settings.subject.unwrap()), dict),
                        ),
                    ),
                },
            },
        }
    }
}

/// The value of a prepared text or of the error in its place.
pub open spec fn text_view(r: Result<(Profile, String, String), PrepareError>) -> Result<
    (ProfileView, Seq<char>, Seq<char>),
    PrepareError,
> {
    match r {
        Ok(text) => Ok((text.0@, text.1@, text.2@)),
        Err(error) => Err(error),
    }
}

/// Prepares the body and the subject of the message of `settings` on the day
/// `today`, with the lines of the profile's `event_file` in `data`. Returns
/// the profile without the fields that were used, the body and the subject.
///
/// `data` is looked at only where the profile has an `event_file`.
pub fn prepare_text_on(settings: Profile, today: Date, data: &DataFile) -> (r: Result<
    (Profile, String, String),
    PrepareError,
>)
    ensures
        text_view(r) == prepared(settings@, today@, data.lines.deep_view(), data.failed),
{
    let mut settings = settings;
    let body = match settings.body.take() {
        Some(body) => body,
        None => {
            return Err(PrepareError::MissingRequiredField(Field::Body));
        },
    };
    let subject = match settings.subject.take() {
        Some(subject) => subject,
        None => {
            return Err(PrepareError::MissingRequiredField(Field::Subject));
        },
    };
    let date_spec = match settings.date_spec.take() {
        Some(date_spec) => date_spec,
        None => {
            return Err(PrepareError::MissingRequiredField(Field::DateSpec));
        },
    };
    let day = match parse_weekday(date_spec.as_str()) {
        Some(day) => day,
        None => {
            return Err(PrepareError::UnparsableWeekday);
        },
    };
    let date = match next_date_from(day, today) {
        Some(date) => date,
        None => {
            return Err(PrepareError::DateOutOfRange);
        },
    };
    let dict = match settings.event_file.take() {
        Some(_) => {
            let pattern = match settings.format.take() {
                Some(pattern) => pattern,
                None => {
                    return Err(PrepareError::MissingRequiredField(Field::Format));
                },
            };
            match capture(data, pattern.as_str(), &date) {
                Ok(dict) => dict,
                Err(error) => {
                    return Err(error);
                },
            }
        },
        None => {
            let mut dict = CaptureDict::new();
            proof {
                reveal_strlit("date");
            }
            dict.insert("date".to_string(), date);
            dict
        },
    };
    let body = match apply_template(body, &dict) {
        Ok(body) => body,
        Err(error) => {
            return Err(error);
        },
    };
    let subject = match apply_template(subject, &dict) {
        Ok(subject) => subject,
        Err(error) => {
            return Err(error);
        },
    };
    Ok((settings, body, subject))
}

/// Prepares the body and the subject of the message of `settings` today, the
/// day on the local clock with the weekday that falls on it. See
/// [`prepare_text_on`].
pub fn prepare_text(settings: Profile, data: &DataFile) -> (r: Result<
    (Profile, String, String),
    PrepareError,
>)
    ensures
        exists|today: Day|
            today.wf() && text_view(r) == #[trigger] prepared(
                settings@,
                today,
                data.lines.deep_view(),
                data.failed,
            ),
{
    prepare_text_on(settings, Date::today(), data)
}

} // verus!
