//! Per-locale label tables. Two locales are supported: "zh" and "en".
//! An unknown locale code is a configuration error reported by the
//! controller; the raw constructors here require a supported code.

use vstd::prelude::*;
use crate::text::str_eq;

verus! {

/// The label set of one locale: the locale code itself, the navigation
/// labels, and the words used by the duration formatter.
pub struct Language {
    pub lang: &'static str,
    pub nav_lang_link: &'static str,
    pub nav_blogs: &'static str,
    pub nav_projects: &'static str,
    pub nav_learning: &'static str,
    pub last_update: &'static str,
    pub time_week: &'static str,
    pub time_day: &'static str,
    pub time_hour: &'static str,
    pub time_minutes: &'static str,
    pub time_ago: &'static str,
    pub time_just: &'static str,
}

/// The label set that `Language::zh` returns, field by field.
pub open spec fn zh_labels(l: Language) -> bool {
    &&& l.lang@ == "zh"@
    &&& l.nav_lang_link@ == "语言"@
    &&& l.nav_blogs@ == "文章"@
    &&& l.nav_projects@ == "项目"@
    &&& l.nav_learning@ == "学习"@
    &&& l.last_update@ == "最后更新"@
    &&& l.time_week@ == "周"@
    &&& l.time_day@ == "天"@
    &&& l.time_hour@ == "小时"@
    &&& l.time_minutes@ == "分钟"@
    &&& l.time_ago@ == "前"@
    &&& l.time_just@ == "刚刚"@
}

/// The label set that `Language::en` returns, field by field.
pub open spec fn en_labels(l: Language) -> bool {
    &&& l.lang@ == "en"@
    &&& l.nav_lang_link@ == "Language"@
    &&& l.nav_blogs@ == "Blogs"@
    &&& l.nav_projects@ == "Projects"@
    &&& l.nav_learning@ == "Learning"@
    &&& l.last_update@ == "Last update"@
    &&& l.time_week@ == "weeks"@
    &&& l.time_day@ == "days"@
    &&& l.time_hour@ == "hours"@
    &&& l.time_minutes@ == "minutes"@
    &&& l.time_ago@ == "ago"@
    &&& l.time_just@ == "just now"@
}

/// A locale code is supported when a label table exists for it.
pub open spec fn supported_locale(code: Seq<char>) -> bool {
    code == "zh"@ || code == "en"@
}

/// The two supported locale codes are distinct.
pub proof fn lemma_locale_codes_distinct()
    ensures
        "zh"@ != "en"@,
{
    reveal_strlit("zh");
    reveal_strlit("en");
    assert("zh"@ != "en"@) by {
        if "zh"@ == "en"@ {
            assert("zh"@[0] == "en"@[0]);
        }
    }
}

impl Language {
    /// Looks the label table up for a supported locale code.
    pub fn from_lang(lang: &'static str) -> (r: Language)
        requires
            supported_locale(lang@),
        ensures
            lang@ == "zh"@ ==> zh_labels(r),
            lang@ == "en"@ ==> en_labels(r),
    {
        proof {
            lemma_locale_codes_distinct();
        }
        if str_eq(lang, "zh") {
            Self::zh()
        } else {
            Self::en()
        }
    }

    /// The Chinese label table.
    pub fn zh() -> (r: Language)
        ensures
            zh_labels(r),
    {
        Language {
            lang: "zh",
            nav_lang_link: "语言",
            nav_blogs: "文章",
            nav_projects: "项目",
            nav_learning: "学习",
            last_update: "最后更新",
            time_week: "周",
            time_day: "天",
            time_hour: "小时",
            time_minutes: "分钟",
            time_ago: "前",
            time_just: "刚刚",
        }
    }

    /// The English label table.
    pub fn en() -> (r: Language)
        ensures
            en_labels(r),
    {
        Language {
            lang: "en",
            nav_lang_link: "Language",
            nav_blogs: "Blogs",
            nav_projects: "Projects",
            nav_learning: "Learning",
            last_update: "Last update",
            time_week: "weeks",
            time_day: "days",
            time_hour: "hours",
            time_minutes: "minutes",
            time_ago: "ago",
            time_just: "just now",
        }
    }
}

} // verus!
