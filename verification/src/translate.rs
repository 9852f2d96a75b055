//! Translation: Chinese script conversion runs locally through an
//! outside converter; every other direction is decided here and carried
//! out by a remote collaborator, whose answers are interpreted here.

use vstd::prelude::*;
use crate::clock::local_today_string;
use crate::errors::AppError;
use crate::session::InnerState;
use crate::text::starts_with_spec;
use crate::text::str_eq;
use crate::text::str_starts_with;
use crate::text::trim_spec;
use crate::text::trim_str;

verus! {

/// The daily request allowance without a key, and with one.
pub const FREE_DAILY_LIMIT: u32 = 1000;

pub const KEYED_DAILY_LIMIT: u32 = 10000;

/// What the outside converter returns for a text and target script:
/// a function of the two alone.
pub uninterp spec fn zh_convert_of(s: Seq<char>, to_traditional: bool) -> Seq<char>;

/// Relies on zhconv::zhconv with the built-in ZhHant / ZhHans
/// converters: the conversion depends on the text and the target
/// variant alone.
#[verifier::external_body]
fn zh_convert(text: &str, to_traditional: bool) -> (r: String)
    ensures
        r@ == zh_convert_of(text@, to_traditional),
{
    let variant = if to_traditional {
        zhconv::Variant::ZhHant
    } else {
        zhconv::Variant::ZhHans
    };
    zhconv::zhconv(text, variant)
}

/// The language-pair half the remote collaborator expects for an
/// internal language code.
pub open spec fn mm_lang_spec(lang: Seq<char>) -> Seq<char> {
    if lang == "zh-hans"@ {
        "zh-CN"@
    } else if lang == "zh-hant"@ {
        "zh-TW"@
    } else if lang == "en"@ {
        "en-GB"@
    } else {
        lang
    }
}

/// Map an internal language code to the remote collaborator's code.
pub fn to_mm_lang<'a>(lang: &'a str) -> (r: &'a str)
    ensures
        r@ == mm_lang_spec(lang@),
{
    if str_eq(lang, "zh-hans") {
        "zh-CN"
    } else if str_eq(lang, "zh-hant") {
        "zh-TW"
    } else if str_eq(lang, "en") {
        "en-GB"
    } else {
        lang
    }
}

/// The `langpair` parameter for a translation direction.
pub fn mm_langpair(from: &str, to: &str) -> (r: String)
    ensures
        r@ == mm_lang_spec(from@) + "|"@ + mm_lang_spec(to@),
{
    let a = to_mm_lang(from);
    let b = to_mm_lang(to);
    String::from_str(a).concat("|").concat(b)
}

/// Translate locally where no remote call is needed: the same language
/// or blank text comes back unchanged, and the two Chinese scripts
/// convert through the outside converter.  `None`: the direction needs
/// the remote collaborator.
pub fn translate_local(text: &str, from: &str, to: &str) -> (r: Option<String>)
    ensures
        from@ == to@ || trim_spec(text@).len() == 0 ==> match r {
            Some(t) => t@ == text@,
            None => false,
        },
        from@ != to@ && trim_spec(text@).len() > 0 && from@ == "zh-hans"@ && to@ == "zh-hant"@
            ==> match r {
            Some(t) => t@ == zh_convert_of(text@, true),
            None => false,
        },
        from@ != to@ && trim_spec(text@).len() > 0 && from@ == "zh-hant"@ && to@ == "zh-hans"@
            ==> match r {
            Some(t) => t@ == zh_convert_of(text@, false),
            None => false,
        },
        from@ != to@ && trim_spec(text@).len() > 0 && !(from@ == "zh-hans"@ && to@ == "zh-hant"@)
            && !(from@ == "zh-hant"@ && to@ == "zh-hans"@) ==> r is None,
{
    if str_eq(from, to) {
        return Some(text.to_owned());
    }
    let trimmed = trim_str(text);
    if trimmed.as_str().is_empty() {
        return Some(text.to_owned());
    }
    if str_eq(from, "zh-hans") && str_eq(to, "zh-hant") {
        return Some(zh_convert(text, true));
    }
    if str_eq(from, "zh-hant") && str_eq(to, "zh-hans") {
        return Some(zh_convert(text, false));
    }
    None
}

/// Read the remote collaborator's answer: an exhausted allowance (its
/// flag, or its warning text) is refused as such, an empty answer as a
/// failure, anything else is the translation.
pub fn interpret_translation_response(quota_finished: bool, translated: &str) -> (r: Result<
    String,
    AppError,
>)
    ensures
        quota_finished || starts_with_spec(translated@, "MYMEMORY WARNING:"@) ==> r == Err::<
            String,
            AppError,
        >(AppError::TranslationQuotaExceeded),
        !quota_finished && !starts_with_spec(translated@, "MYMEMORY WARNING:"@) && translated@.len()
            == 0 ==> r == Err::<String, AppError>(AppError::TranslationFailed),
        !quota_finished && !starts_with_spec(translated@, "MYMEMORY WARNING:"@) && translated@.len()
            > 0 ==> match r {
            Ok(t) => t@ == translated@,
            Err(_) => false,
        },
{
    if quota_finished || str_starts_with(translated, "MYMEMORY WARNING:") {
        Err(AppError::TranslationQuotaExceeded)
    } else if translated.is_empty() {
        Err(AppError::TranslationFailed)
    } else {
        Ok(translated.to_owned())
    }
}

/// What a poll of the user's text selection decided: the freshly
/// captured text when it is worth translating — trimmed, two characters
/// at least, and different from the last capture — and nothing
/// otherwise.
pub fn selection_update(last: &str, current: &str) -> (r: Option<String>)
    ensures
        match r {
            Some(t) => {
                &&& t@ == trim_spec(current@)
                &&& t@.len() >= 2
                &&& t@ != last@
            },
            None => trim_spec(current@).len() < 2 || trim_spec(current@) == last@,
        },
{
    let trimmed = trim_str(current);
    let n = trimmed.as_str().unicode_len();
    if n >= 2 && !str_eq(trimmed.as_str(), last) {
        Some(trimmed)
    } else {
        None
    }
}

/// Today's usage figures.
#[derive(Debug)]
pub struct TranslationUsage {
    pub used_today: u32,
    pub limit_today: u32,
    pub has_key: bool,
}

impl InnerState {
    /// Reset the daily translation count when the date has rolled over.
    pub fn roll_translation_day(&mut self, today: &str)
        ensures
            final(self).translation_day_date@ == today@,
            old(self).translation_day_date@ == today@ ==> final(self).translation_day_count
                == old(self).translation_day_count,
            old(self).translation_day_date@ != today@ ==> final(self).translation_day_count == 0,
            final(self).recording_status == old(self).recording_status,
            final(self).model_status == old(self).model_status,
            final(self).settings == old(self).settings,
            final(self).history == old(self).history,
            final(self).download_progress_permille == old(self).download_progress_permille,
            final(self).audio_buffer == old(self).audio_buffer,
    {
        if !str_eq(self.translation_day_date.as_str(), today) {
            self.translation_day_count = 0;
            self.translation_day_date = today.to_owned();
        } else {
            self.translation_day_date = today.to_owned();
        }
    }

    /// Count one remote translation against today's allowance.
    pub fn note_translation(&mut self, today: &str)
        requires
            old(self).translation_day_count < u32::MAX,
        ensures
            final(self).translation_day_date@ == today@,
            old(self).translation_day_date@ == today@ ==> final(self).translation_day_count
                == old(self).translation_day_count + 1,
            old(self).translation_day_date@ != today@ ==> final(self).translation_day_count == 1,
            final(self).recording_status == old(self).recording_status,
            final(self).settings == old(self).settings,
            final(self).history == old(self).history,
    {
        self.roll_translation_day(today);
        self.translation_day_count = self.translation_day_count + 1;
    }

    /// Today's usage: the exact figure the remote collaborator reported
    /// when a key is configured and it answered, the local count
    /// otherwise, under the allowance the key grants.
    pub fn translation_usage(&mut self, today: &str, reported_today: Option<u32>) -> (r:
        TranslationUsage)
        ensures
            final(self).translation_day_date@ == today@,
            r.has_key == (old(self).settings.my_memory_key@.len() > 0),
            r.limit_today == if r.has_key {
                KEYED_DAILY_LIMIT
            } else {
                FREE_DAILY_LIMIT
            },
            r.has_key ==> match reported_today {
                Some(u) => r.used_today == u,
                None => r.used_today == final(self).translation_day_count,
            },
            !r.has_key ==> r.used_today == final(self).translation_day_count,
            final(self).settings == old(self).settings,
            final(self).history == old(self).history,
            final(self).recording_status == old(self).recording_status,
    {
        self.roll_translation_day(today);
        let has_key = !self.settings.my_memory_key.as_str().is_empty();
        if has_key {
            match reported_today {
                Some(u) => TranslationUsage {
                    used_today: u,
                    limit_today: KEYED_DAILY_LIMIT,
                    has_key: true,
                },
                None => TranslationUsage {
                    used_today: self.translation_day_count,
                    limit_today: KEYED_DAILY_LIMIT,
                    has_key: true,
                },
            }
        } else {
            TranslationUsage {
                used_today: self.translation_day_count,
                limit_today: FREE_DAILY_LIMIT,
                has_key: false,
            }
        }
    }

    /// Roll the daily count against the machine's current date.
    /// Whatever the clock reads, the count either survives (the date
    /// matched) or starts over at zero.
    pub fn roll_translation_day_now(&mut self)
        ensures
            final(self).translation_day_count == old(self).translation_day_count
                || final(self).translation_day_count == 0,
            final(self).recording_status == old(self).recording_status,
            final(self).settings == old(self).settings,
            final(self).history == old(self).history,
    {
        let today = local_today_string();
        self.roll_translation_day(today.as_str());
    }
}

} // verus!
