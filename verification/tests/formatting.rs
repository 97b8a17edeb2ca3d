use blog_feed::duration::display_duration;
use blog_feed::feed::Blog;
use blog_feed::lang::Language;
use blog_feed::text::{parse_i64, u64_to_dec};

#[test]
fn empty_title_displays_placeholder() {
    let blank = Blog { title: String::new(), link: String::from("u"), last_update: 0 };
    assert_eq!(blank.display_title(), "Empty title");
    let titled = Blog { title: String::from("A"), link: String::from("u"), last_update: 0 };
    assert_eq!(titled.display_title(), "A");
}

#[test]
fn bucket_just_now_at_zero() {
    let lang = Language::en();
    assert_eq!(display_duration(0, &lang), "just now");
}

#[test]
fn bucket_minutes_at_ninety_seconds() {
    let lang = Language::en();
    assert_eq!(display_duration(90_000, &lang), "1 minutes ago");
}

#[test]
fn bucket_hours() {
    let lang = Language::en();
    assert_eq!(display_duration(3 * 3_600_000 + 59_000, &lang), "3 hours ago");
}

#[test]
fn bucket_days_at_three_days() {
    let lang = Language::en();
    assert_eq!(display_duration(3 * 86_400_000, &lang), "3 days ago");
}

#[test]
fn bucket_weeks_at_ten_days() {
    let lang = Language::en();
    assert_eq!(display_duration(10 * 86_400_000, &lang), "1 weeks ago");
}

#[test]
fn clock_skew_clamps_to_just_now() {
    let lang = Language::en();
    assert_eq!(display_duration(-5_000, &lang), "just now");
}

#[test]
fn buckets_use_the_locale_labels() {
    let lang = Language::zh();
    assert_eq!(display_duration(-1, &lang), "刚刚");
    assert_eq!(display_duration(90_000, &lang), "1 分钟 前");
}

#[test]
fn language_tables() {
    let zh = Language::from_lang("zh");
    assert_eq!(zh.lang, "zh");
    assert_eq!(zh.time_just, "刚刚");
    assert_eq!(zh.last_update, "最后更新");
    let en = Language::from_lang("en");
    assert_eq!(en.lang, "en");
    assert_eq!(en.time_week, "weeks");
    assert_eq!(en.nav_blogs, "Blogs");
}

#[test]
fn decimal_rendering() {
    assert_eq!(u64_to_dec(0), "0");
    assert_eq!(u64_to_dec(7), "7");
    assert_eq!(u64_to_dec(1609859438225), "1609859438225");
    assert_eq!(u64_to_dec(u64::MAX), "18446744073709551615");
}

#[test]
fn decimal_reading() {
    assert_eq!(parse_i64("0"), Some(0));
    assert_eq!(parse_i64("1609859438225"), Some(1609859438225));
    assert_eq!(parse_i64("-5"), Some(-5));
    assert_eq!(parse_i64("+5"), Some(5));
    assert_eq!(parse_i64("9223372036854775807"), Some(i64::MAX));
    assert_eq!(parse_i64("-9223372036854775808"), Some(i64::MIN));
    assert_eq!(parse_i64("9223372036854775808"), None);
    assert_eq!(parse_i64("-9223372036854775809"), None);
    assert_eq!(parse_i64(""), None);
    assert_eq!(parse_i64("-"), None);
    assert_eq!(parse_i64("+"), None);
    assert_eq!(parse_i64("12a"), None);
    assert_eq!(parse_i64(" 12"), None);
    assert_eq!(parse_i64("2021-01-05"), None);
}
