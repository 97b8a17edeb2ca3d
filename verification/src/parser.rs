//! The streaming sitemap parser: a single pass over an XML event stream
//! that builds `Blog` records with O(1) auxiliary state and no document
//! tree. Three leaf-element names are recognized (`loc`, `lastmod`,
//! `title`); a record is finalized by the close of a `url` element;
//! everything else is skipped. The whole pass is specified by
//! `spec_parse` and the executable code is proved to follow it.

use vstd::prelude::*;
use crate::events::{Event, EventV, events_view, read_events, xml_events_of};
use crate::feed::{Blog, BlogV, Blogs, BlogsV, blogs_view, empty_blog, spec_max_update};
use crate::text::{parse_i64, spec_parse_i64, str_eq};

verus! {

/// Which field the next character-data event is destined for.
#[derive(Clone, Copy, Debug, PartialEq, Eq, Structural)]
pub enum SetState {
    Loc,
    LastUpdate,
    Title,
    /// No field is pending; character data in this state is unexpected.
    Unset,
}

/// The parser's transient state: either no record is open, or one record
/// is being built together with the field its next text is destined for.
/// Partially built records never escape: only `exit` hands one out, whole.
#[derive(Debug)]
pub enum Parser {
    Idle,
    Building(Blog, SetState),
}

/// The mathematical value of the parser state.
pub enum ParserV {
    Idle,
    Building(BlogV, SetState),
}

impl View for Parser {
    type V = ParserV;

    open spec fn view(&self) -> ParserV {
        match self {
            Parser::Idle => ParserV::Idle,
            Parser::Building(b, f) => ParserV::Building(b@, *f),
        }
    }
}

/// Why a parse failed.
#[derive(Debug)]
pub enum ParseError {
    /// The XML was not well-formed; the message comes from the reader.
    Malformed(String),
    /// Character data with no pending field, or a `url` close with no
    /// open record.
    UnexpectedStructure,
    /// A `<lastmod>` text that is not a decimal integer in range.
    InvalidTimestamp,
}

/// The kind of a parse failure, without the display detail.
pub enum ParseKind {
    Malformed,
    UnexpectedStructure,
    InvalidTimestamp,
}

impl View for ParseError {
    type V = ParseKind;

    open spec fn view(&self) -> ParseKind {
        match self {
            ParseError::Malformed(_) => ParseKind::Malformed,
            ParseError::UnexpectedStructure => ParseKind::UnexpectedStructure,
            ParseError::InvalidTimestamp => ParseKind::InvalidTimestamp,
        }
    }
}

/// The display message of a parse failure.
pub open spec fn spec_error_message(e: ParseError) -> Seq<char> {
    match e {
        ParseError::Malformed(d) => d@,
        ParseError::UnexpectedStructure => "unexpected document structure"@,
        ParseError::InvalidTimestamp => "invalid lastmod timestamp"@,
    }
}

/// The fixed message of a structural parse failure kind.
pub open spec fn spec_kind_message(k: ParseKind) -> Seq<char> {
    match k {
        ParseKind::Malformed => Seq::empty(),
        ParseKind::UnexpectedStructure => "unexpected document structure"@,
        ParseKind::InvalidTimestamp => "invalid lastmod timestamp"@,
    }
}

impl ParseError {
    /// The human-readable message handed to the display layer.
    pub fn message(&self) -> (r: String)
        ensures
            r@ == spec_error_message(*self),
    {
        match self {
            ParseError::Malformed(d) => d.clone(),
            ParseError::UnexpectedStructure => String::from_str("unexpected document structure"),
            ParseError::InvalidTimestamp => String::from_str("invalid lastmod timestamp"),
        }
    }
}

/// What an element-open event does to the state: opening `loc`,
/// `lastmod` or `title` sets the pending field, starting a fresh record
/// only when none is open.
pub open spec fn spec_enter(st: ParserV, field: SetState) -> ParserV {
    match st {
        ParserV::Idle => ParserV::Building(empty_blog(), field),
        ParserV::Building(b, _) => ParserV::Building(b, field),
    }
}

/// What a character-data event does to the state: the text goes to the
/// pending field and the field is cleared. Text with no open record or no
/// pending field is unexpected; a `lastmod` text must read as a decimal
/// count of milliseconds.
pub open spec fn spec_set(st: ParserV, data: Seq<char>) -> Result<ParserV, ParseKind> {
    match st {
        ParserV::Idle => Err(ParseKind::UnexpectedStructure),
        ParserV::Building(b, f) => match f {
            SetState::Loc => Ok(
                ParserV::Building(BlogV { link: data, ..b }, SetState::Unset),
            ),
            SetState::LastUpdate => match spec_parse_i64(data) {
                Some(ms) => Ok(
                    ParserV::Building(BlogV { last_update: ms, ..b }, SetState::Unset),
                ),
                None => Err(ParseKind::InvalidTimestamp),
            },
            SetState::Title => Ok(
                ParserV::Building(BlogV { title: data, ..b }, SetState::Unset),
            ),
            SetState::Unset => Err(ParseKind::UnexpectedStructure),
        },
    }
}

/// One step of the event walk: what a single event does to the state and
/// to the records produced so far.
pub open spec fn spec_step(st: ParserV, out: Seq<BlogV>, ev: EventV) -> Result<
    (ParserV, Seq<BlogV>),
    ParseKind,
> {
    match ev {
        EventV::Open(name) => if name == "loc"@ {
            Ok((spec_enter(st, SetState::Loc), out))
        } else if name == "lastmod"@ {
            Ok((spec_enter(st, SetState::LastUpdate), out))
        } else if name == "title"@ {
            Ok((spec_enter(st, SetState::Title), out))
        } else {
            Ok((st, out))
        },
        EventV::Close(name) => if name == "url"@ {
            match st {
                ParserV::Building(b, _) => Ok((ParserV::Idle, out.push(b))),
                ParserV::Idle => Err(ParseKind::UnexpectedStructure),
            }
        } else {
            Ok((st, out))
        },
        EventV::Text(data) => match spec_set(st, data) {
            Ok(st2) => Ok((st2, out)),
            Err(k) => Err(k),
        },
        EventV::Other => Ok((st, out)),
    }
}

/// The event walk from position `i` on, carrying the state and the
/// records produced so far.
pub open spec fn spec_run_from(
    evs: Seq<EventV>,
    i: int,
    st: ParserV,
    out: Seq<BlogV>,
) -> Result<(ParserV, Seq<BlogV>), ParseKind>
    decreases evs.len() - i,
    when 0 <= i <= evs.len()
{
    if i >= evs.len() {
        Ok((st, out))
    } else {
        match spec_step(st, out, evs[i]) {
            Ok(p) => spec_run_from(evs, i + 1, p.0, p.1),
            Err(k) => Err(k),
        }
    }
}

/// What a whole event stream parses to: the records in document order
/// with the maximum `last_update` over them, or the first failure. A
/// record still open at the end of the stream is dropped.
pub open spec fn spec_parse(evs: Seq<EventV>) -> Result<BlogsV, ParseKind> {
    match spec_run_from(evs, 0, ParserV::Idle, Seq::empty()) {
        Ok(p) => Ok(BlogsV { last_update: spec_max_update(p.1), blogs: p.1 }),
        Err(k) => Err(k),
    }
}

/// The event walk itself never reports `Malformed`: that kind belongs to
/// the tokenizer alone.
pub proof fn lemma_run_no_malformed(evs: Seq<EventV>, i: int, st: ParserV, out: Seq<BlogV>)
    requires
        0 <= i <= evs.len(),
    ensures
        spec_run_from(evs, i, st, out) matches Err(k) ==> k != ParseKind::Malformed,
    decreases evs.len() - i,
{
    if i < evs.len() {
        match spec_step(st, out, evs[i]) {
            Ok(p) => {
                lemma_run_no_malformed(evs, i + 1, p.0, p.1);
            }
            Err(_) => {}
        }
    }
}

impl Parser {
    /// A parser with no record open.
    pub fn new() -> (r: Parser)
        ensures
            r@ == ParserV::Idle,
    {
        Parser::Idle
    }

    /// Records that the next character data is destined for `field`,
    /// opening a fresh record when none is open.
    pub fn enter(&mut self, field: SetState)
        ensures
            final(self)@ == spec_enter(old(self)@, field),
    {
        let mut cur = Parser::Idle;
        core::mem::swap(&mut cur, self);
        match cur {
            Parser::Building(b, _) => {
                *self = Parser::Building(b, field);
            }
            Parser::Idle => {
                *self = Parser::Building(Blog::default(), field);
            }
        }
    }

    /// Assigns character data to the pending field and clears it. On an
    /// unexpected-state or timestamp failure the state is unchanged and
    /// the failure is returned instead of aborting.
    pub fn set(&mut self, data: String) -> (r: Result<(), ParseError>)
        ensures
            match spec_set(old(self)@, data@) {
                Ok(st2) => r is Ok && final(self)@ == st2,
                Err(k) => (r matches Err(e) && e@ == k) && final(self)@ == old(self)@,
            },
    {
        let mut cur = Parser::Idle;
        core::mem::swap(&mut cur, self);
        match cur {
            Parser::Idle => Err(ParseError::UnexpectedStructure),
            Parser::Building(mut b, f) => match f {
                SetState::Loc => {
                    b.link = data;
                    *self = Parser::Building(b, SetState::Unset);
                    Ok(())
                }
                SetState::LastUpdate => match parse_i64(data.as_str()) {
                    Some(ms) => {
                        b.last_update = ms;
                        *self = Parser::Building(b, SetState::Unset);
                        Ok(())
                    }
                    None => {
                        *self = Parser::Building(b, SetState::LastUpdate);
                        Err(ParseError::InvalidTimestamp)
                    }
                },
                SetState::Title => {
                    b.title = data;
                    *self = Parser::Building(b, SetState::Unset);
                    Ok(())
                }
                SetState::Unset => {
                    *self = Parser::Building(b, SetState::Unset);
                    Err(ParseError::UnexpectedStructure)
                }
            },
        }
    }

    /// Takes the open record out, whole, leaving the parser idle; `None`
    /// when no record was open.
    pub fn exit(&mut self) -> (r: Option<Blog>)
        ensures
            final(self)@ == ParserV::Idle,
            match old(self)@ {
                ParserV::Building(b, _) => r matches Some(blog) && blog@ == b,
                ParserV::Idle => r is None,
            },
    {
        let mut cur = Parser::Idle;
        core::mem::swap(&mut cur, self);
        match cur {
            Parser::Building(b, _) => Some(b),
            Parser::Idle => None,
        }
    }
}

/// Walks an event stream and produces the feed, exactly as `spec_parse`
/// says: the records in document order, `last_update` the maximum over
/// them (the epoch for an empty feed), or the first failure.
pub fn parse_events(events: &Vec<Event>) -> (r: Result<Blogs, ParseError>)
    ensures
        match spec_parse(events_view(events@)) {
            Ok(f) => r matches Ok(b) && b@ == f,
            Err(k) => r matches Err(e) && e@ == k,
        },
{
    let ghost all: Seq<EventV> = events_view(events@);
    let mut parser = Parser::new();
    let mut out: Vec<Blog> = Vec::new();
    proof {
        assert(blogs_view(out@) =~= Seq::<BlogV>::empty());
    }
    let mut i: usize = 0;
    while i < events.len()
        invariant
            i <= events.len(),
            all == events_view(events@),
            all.len() == events@.len(),
            forall|j: int| 0 <= j < all.len() ==> all[j] == events@[j]@,
            spec_run_from(all, 0, ParserV::Idle, Seq::empty()) == spec_run_from(
                all,
                i as int,
                parser@,
                blogs_view(out@),
            ),
        decreases events.len() - i,
    {
        let ghost st0 = parser@;
        let ghost out0 = blogs_view(out@);
        match &events[i] {
            Event::Open(name) => {
                if str_eq(name.as_str(), "loc") {
                    parser.enter(SetState::Loc);
                } else if str_eq(name.as_str(), "lastmod") {
                    parser.enter(SetState::LastUpdate);
                } else if str_eq(name.as_str(), "title") {
                    parser.enter(SetState::Title);
                }
            }
            Event::Close(name) => {
                if str_eq(name.as_str(), "url") {
                    match parser.exit() {
                        Some(b) => {
                            out.push(b);
                            proof {
                                assert(blogs_view(out@) =~= out0.push(b@));
                            }
                        }
                        None => {
                            proof {
                                assert(spec_step(st0, out0, all[i as int]) == Err::<
                                    (ParserV, Seq<BlogV>),
                                    ParseKind,
                                >(ParseKind::UnexpectedStructure));
                            }
                            return Err(ParseError::UnexpectedStructure);
                        }
                    }
                }
            }
            Event::Text(data) => {
                let text = data.clone();
                match parser.set(text) {
                    Ok(()) => {}
                    Err(e) => {
                        return Err(e);
                    }
                }
            }
            Event::Other => {}
        }
        proof {
            assert(spec_step(st0, out0, all[i as int]) == Ok::<_, ParseKind>(
                (parser@, blogs_view(out@)),
            ));
        }
        i = i + 1;
    }
    let ghost produced = blogs_view(out@);
    proof {
        assert(spec_run_from(all, i as int, parser@, produced) == Ok::<_, ParseKind>(
            (parser@, produced),
        ));
    }
    let mut last_update: i64 = 0;
    let mut j: usize = 0;
    while j < out.len()
        invariant
            j <= out.len(),
            produced == blogs_view(out@),
            produced.len() == out@.len(),
            forall|k: int| 0 <= k < produced.len() ==> produced[k] == out@[k]@,
            last_update as int == spec_max_update(produced.take(j as int)),
        decreases out.len() - j,
    {
        proof {
            assert(produced.take(j + 1).drop_last() =~= produced.take(j as int));
            assert(produced.take(j + 1).last() == produced[j as int]);
        }
        if j == 0 {
            last_update = out[j].last_update;
        } else if out[j].last_update > last_update {
            last_update = out[j].last_update;
        }
        j = j + 1;
    }
    proof {
        assert(produced.take(j as int) =~= produced);
    }
    Ok(Blogs { last_update, blogs: out })
}

/// For every feed the walk produces, `last_update` is the maximum over
/// the records' `last_update`, and the epoch (0) when the feed is empty.
pub proof fn lemma_feed_max(evs: Seq<EventV>)
    ensures
        spec_parse(evs) matches Ok(f) ==> f.last_update == spec_max_update(f.blogs) && (
        f.blogs.len() == 0 ==> f.last_update == 0),
{
}

/// The event stream of one fully populated `<url>` block: the three leaf
/// elements with their text, inside an open and a close of `url`.
pub open spec fn spec_url_block(b: BlogV) -> Seq<EventV> {
    seq![
        EventV::Open("url"@),
        EventV::Open("title"@),
        EventV::Text(b.title),
        EventV::Close("title"@),
        EventV::Open("loc"@),
        EventV::Text(b.link),
        EventV::Close("loc"@),
        EventV::Open("lastmod"@),
        EventV::Text(crate::text::spec_dec_i64(b.last_update)),
        EventV::Close("lastmod"@),
        EventV::Close("url"@),
    ]
}

/// The event stream of a whole feed of fully populated blocks.
pub open spec fn spec_url_blocks(bs: Seq<BlogV>) -> Seq<EventV>
    decreases bs.len(),
{
    if bs.len() == 0 {
        Seq::empty()
    } else {
        spec_url_block(bs[0]) + spec_url_blocks(bs.drop_first())
    }
}

/// The four recognized element names are pairwise distinct.
proof fn lemma_names_distinct()
    ensures
        "url"@ != "loc"@,
        "url"@ != "lastmod"@,
        "url"@ != "title"@,
        "loc"@ != "lastmod"@,
        "loc"@ != "title"@,
        "lastmod"@ != "title"@,
{
    reveal_strlit("url");
    reveal_strlit("loc");
    reveal_strlit("lastmod");
    reveal_strlit("title");
    assert("url"@ != "loc"@) by {
        if "url"@ == "loc"@ {
            assert("url"@[0] == "loc"@[0]);
        }
    }
    assert("url"@ != "lastmod"@) by {
        if "url"@ == "lastmod"@ {
            assert("url"@.len() == "lastmod"@.len());
        }
    }
    assert("url"@ != "title"@) by {
        if "url"@ == "title"@ {
            assert("url"@.len() == "title"@.len());
        }
    }
    assert("loc"@ != "lastmod"@) by {
        if "loc"@ == "lastmod"@ {
            assert("loc"@.len() == "lastmod"@.len());
        }
    }
    assert("loc"@ != "title"@) by {
        if "loc"@ == "title"@ {
            assert("loc"@.len() == "title"@.len());
        }
    }
    assert("lastmod"@ != "title"@) by {
        if "lastmod"@ == "title"@ {
            assert("lastmod"@.len() == "title"@.len());
        }
    }
}

/// One fully populated block, entered with no record open, produces
/// exactly its record and leaves no record open.
proof fn lemma_block_step(evs: Seq<EventV>, i: int, b: BlogV, out: Seq<BlogV>)
    requires
        0 <= i,
        i + 11 <= evs.len(),
        evs.subrange(i, i + 11) == spec_url_block(b),
        i64::MIN <= b.last_update <= i64::MAX,
    ensures
        spec_run_from(evs, i, ParserV::Idle, out) == spec_run_from(
            evs,
            i + 11,
            ParserV::Idle,
            out.push(b),
        ),
{
    lemma_names_distinct();
    crate::text::lemma_parse_of_dec_i64(b.last_update);
    let block = spec_url_block(b);
    assert(forall|k: int| 0 <= k < 11 ==> evs[i + k] == block[k]) by {
        assert(forall|k: int| 0 <= k < 11 ==> #[trigger] evs.subrange(i, i + 11)[k] == evs[i + k]);
    }
    let r0 = empty_blog();
    let r1 = BlogV { title: b.title, link: r0.link, last_update: r0.last_update };
    let r2 = BlogV { title: b.title, link: b.link, last_update: r0.last_update };
    let r3 = BlogV { title: b.title, link: b.link, last_update: b.last_update };
    assert(evs[i] == EventV::Open("url"@));
    assert(spec_run_from(evs, i, ParserV::Idle, out) == spec_run_from(
        evs,
        i + 1,
        ParserV::Idle,
        out,
    ));
    assert(evs[i + 1] == EventV::Open("title"@));
    assert(spec_run_from(evs, i + 1, ParserV::Idle, out) == spec_run_from(
        evs,
        i + 2,
        ParserV::Building(r0, SetState::Title),
        out,
    ));
    assert(evs[i + 2] == EventV::Text(b.title));
    assert(spec_run_from(evs, i + 2, ParserV::Building(r0, SetState::Title), out)
        == spec_run_from(evs, i + 3, ParserV::Building(r1, SetState::Unset), out));
    assert(evs[i + 3] == EventV::Close("title"@));
    assert(spec_run_from(evs, i + 3, ParserV::Building(r1, SetState::Unset), out)
        == spec_run_from(evs, i + 4, ParserV::Building(r1, SetState::Unset), out));
    assert(evs[i + 4] == EventV::Open("loc"@));
    assert(spec_run_from(evs, i + 4, ParserV::Building(r1, SetState::Unset), out)
        == spec_run_from(evs, i + 5, ParserV::Building(r1, SetState::Loc), out));
    assert(evs[i + 5] == EventV::Text(b.link));
    assert(spec_run_from(evs, i + 5, ParserV::Building(r1, SetState::Loc), out) == spec_run_from(
        evs,
        i + 6,
        ParserV::Building(r2, SetState::Unset),
        out,
    ));
    assert(evs[i + 6] == EventV::Close("loc"@));
    assert(spec_run_from(evs, i + 6, ParserV::Building(r2, SetState::Unset), out)
        == spec_run_from(evs, i + 7, ParserV::Building(r2, SetState::Unset), out));
    assert(evs[i + 7] == EventV::Open("lastmod"@));
    assert(spec_run_from(evs, i + 7, ParserV::Building(r2, SetState::Unset), out)
        == spec_run_from(evs, i + 8, ParserV::Building(r2, SetState::LastUpdate), out));
    assert(evs[i + 8] == EventV::Text(crate::text::spec_dec_i64(b.last_update)));
    assert(spec_run_from(evs, i + 8, ParserV::Building(r2, SetState::LastUpdate), out)
        == spec_run_from(evs, i + 9, ParserV::Building(r3, SetState::Unset), out));
    assert(evs[i + 9] == EventV::Close("lastmod"@));
    assert(spec_run_from(evs, i + 9, ParserV::Building(r3, SetState::Unset), out)
        == spec_run_from(evs, i + 10, ParserV::Building(r3, SetState::Unset), out));
    assert(evs[i + 10] == EventV::Close("url"@));
    assert(r3 == b);
    assert(spec_run_from(evs, i + 10, ParserV::Building(r3, SetState::Unset), out)
        == spec_run_from(evs, i + 11, ParserV::Idle, out.push(b)));
}

/// The walk over a whole feed of blocks, from any point on, appends
/// exactly the blocks' records.
proof fn lemma_blocks_run(evs: Seq<EventV>, i: int, bs: Seq<BlogV>, out: Seq<BlogV>)
    requires
        0 <= i <= evs.len(),
        evs.subrange(i, evs.len() as int) == spec_url_blocks(bs),
        forall|j: int| 0 <= j < bs.len() ==> i64::MIN <= #[trigger] bs[j].last_update <= i64::MAX,
    ensures
        spec_run_from(evs, i, ParserV::Idle, out) == Ok::<(ParserV, Seq<BlogV>), ParseKind>(
            (ParserV::Idle, out + bs),
        ),
    decreases bs.len(),
{
    let tail = evs.subrange(i, evs.len() as int);
    if bs.len() == 0 {
        assert(tail.len() == 0);
        assert(i == evs.len());
        assert(out + bs =~= out);
    } else {
        let block = spec_url_block(bs[0]);
        let rest = spec_url_blocks(bs.drop_first());
        assert(tail == block + rest);
        assert(block.len() == 11);
        assert(i + 11 <= evs.len());
        assert(evs.subrange(i, i + 11) =~= block) by {
            assert(forall|k: int| 0 <= k < 11 ==> evs.subrange(i, i + 11)[k] == tail[k]);
        }
        lemma_block_step(evs, i, bs[0], out);
        assert(evs.subrange(i + 11, evs.len() as int) =~= rest) by {
            assert(forall|k: int|
                0 <= k < evs.len() - i - 11 ==> #[trigger] evs.subrange(i + 11, evs.len() as int)[k]
                    == tail[k + 11]);
        }
        lemma_blocks_run(evs, i + 11, bs.drop_first(), out.push(bs[0]));
        assert(out.push(bs[0]) + bs.drop_first() =~= out + bs);
    }
}

/// Round trip: a feed of N fully populated `<url>` blocks parses to
/// exactly those N records, in source order, with every field carried
/// verbatim, and with the maximum `last_update` over them.
pub proof fn lemma_round_trip(bs: Seq<BlogV>)
    requires
        forall|j: int| 0 <= j < bs.len() ==> i64::MIN <= #[trigger] bs[j].last_update <= i64::MAX,
    ensures
        spec_parse(spec_url_blocks(bs)) == Ok::<BlogsV, ParseKind>(
            BlogsV { last_update: spec_max_update(bs), blogs: bs },
        ),
{
    let evs = spec_url_blocks(bs);
    assert(evs.subrange(0, evs.len() as int) =~= evs);
    lemma_blocks_run(evs, 0, bs, Seq::empty());
    assert(Seq::empty() + bs =~= bs);
}

/// Parses a sitemap document into the feed: tokenizes the text with the
/// XML reader, then walks the events. A malformed document fails with
/// `Malformed`; a well-formed one parses exactly as `spec_parse` says.
pub fn parse_sitemap_to_blog(data: &str) -> (r: Result<Blogs, ParseError>)
    ensures
        xml_events_of(data@) is None ==> (r matches Err(e) && e@ == ParseKind::Malformed),
        xml_events_of(data@) matches Some(evs) ==> match spec_parse(evs) {
            Ok(f) => r matches Ok(b) && b@ == f,
            Err(k) => r matches Err(e) && e@ == k,
        },
{
    match read_events(data) {
        Ok(events) => parse_events(&events),
        Err(msg) => Err(ParseError::Malformed(msg)),
    }
}

} // verus!
