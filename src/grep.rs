//! Searching the lines of a text for a query, with or without regard to case.
use vstd::prelude::*;

verus! {

/// The pieces of `s` between newline characters; there is always at least one.
pub open spec fn newline_pieces(s: Seq<char>) -> Seq<Seq<char>>
    decreases s.len(),
{
    if s.len() == 0 {
        seq![Seq::empty()]
    } else {
        let p = newline_pieces(s.drop_last());
        if s.last() == '\n' {
            p.push(Seq::empty())
        } else {
            p.update(p.len() - 1, p.last().push(s.last()))
        }
    }
}

/// A line that a newline ended, without the carriage return just before that newline.
pub open spec fn strip_cr(l: Seq<char>) -> Seq<char> {
    if l.len() > 0 && l.last() == '\r' {
        l.drop_last()
    } else {
        l
    }
}

/// The lines of `s`: split at each `\n`, a `\r` just before a `\n` dropped,
/// and no empty last line after a final `\n`.
pub open spec fn lines_of(s: Seq<char>) -> Seq<Seq<char>> {
    let p = newline_pieces(s);
    let ended = p.drop_last().map_values(|l: Seq<char>| strip_cr(l));
    if p.last().len() == 0 {
        ended
    } else {
        ended.push(p.last())
    }
}

/// `needle` occurs in `hay` as a contiguous run of characters.
pub open spec fn has_substring(hay: Seq<char>, needle: Seq<char>) -> bool {
    exists|i: int| 0 <= i <= hay.len() - needle.len() && #[trigger] hay.subrange(i, i + needle.len()) == needle
}

/// The lines `ls[i]` whose key `ks[i]` contains `q`, in their order.
pub open spec fn select_by_keys(ls: Seq<Seq<char>>, ks: Seq<Seq<char>>, q: Seq<char>) -> Seq<Seq<char>>
    decreases ls.len(),
{
    if ls.len() == 0 {
        Seq::empty()
    } else {
        let p = select_by_keys(ls.drop_last(), ks.drop_last(), q);
        if has_substring(ks.last(), q) {
            p.push(ls.last())
        } else {
            p
        }
    }
}

pub open spec fn views_of(v: Seq<&str>) -> Seq<Seq<char>> {
    v.map_values(|l: &str| l@)
}

pub open spec fn string_views_of(v: Seq<String>) -> Seq<Seq<char>> {
    v.map_values(|l: String| l@)
}

/// What lower-casing the characters `s` gives, by Unicode's rules.
pub uninterp spec fn lower_of(s: Seq<char>) -> Seq<char>;

/// Relies on `str::lines`: the lines of `s`, borrowed from it, in order.
#[verifier::external_body]
fn split_lines<'a>(s: &'a str) -> (r: Vec<&'a str>)
    ensures
        views_of(r@) == lines_of(s@),
{
    s.lines().collect()
}

/// Relies on `str::contains` with a `&str` pattern: whether `needle` occurs in `hay`.
#[verifier::external_body]
fn str_contains(hay: &str, needle: &str) -> (r: bool)
    ensures
        r == has_substring(hay@, needle@),
{
    hay.contains(needle)
}

/// Relies on `str::to_lowercase`: the result depends on the characters alone.
#[verifier::external_body]
fn lowercase(s: &str) -> (r: String)
    ensures
        r@ == lower_of(s@),
{
    s.to_lowercase()
}

/// The lines of `contents` that contain `query`, exactly as written.
pub fn search_case_sensitive<'a>(query: &str, contents: &'a str) -> (r: Vec<&'a str>)
    ensures
        views_of(r@) == select_by_keys(lines_of(contents@), lines_of(contents@), query@),
{
    let lines = split_lines(contents);
    let mut out: Vec<&'a str> = Vec::new();
    let mut i: usize = 0;
    while i < lines.len()
        invariant
            i <= lines@.len(),
            views_of(lines@) == lines_of(contents@),
            views_of(out@) == select_by_keys(
                views_of(lines@).take(i as int),
                views_of(lines@).take(i as int),
                query@,
            ),
        decreases lines@.len() - i,
    {
        let line = lines[i];
        let ghost ls = views_of(lines@);
        assert(ls.take(i + 1).drop_last() =~= ls.take(i as int));
        if str_contains(line, query) {
            out.push(line);
        }
        assert(views_of(out@) =~= select_by_keys(ls.take(i + 1), ls.take(i + 1), query@));
        i = i + 1;
    }
    assert(views_of(lines@).take(lines@.len() as int) =~= views_of(lines@));
    out
}

/// The lines `lines[i]` whose folded form `folded[i]` contains `folded_query`.
pub fn select_lines<'a>(lines: &Vec<&'a str>, folded: &Vec<String>, folded_query: &str) -> (r: Vec<&'a str>)
    requires
        lines@.len() == folded@.len(),
    ensures
        views_of(r@) == select_by_keys(views_of(lines@), string_views_of(folded@), folded_query@),
{
    let mut out: Vec<&'a str> = Vec::new();
    let mut i: usize = 0;
    while i < lines.len()
        invariant
            i <= lines@.len(),
            lines@.len() == folded@.len(),
            views_of(out@) == select_by_keys(
                views_of(lines@).take(i as int),
                string_views_of(folded@).take(i as int),
                folded_query@,
            ),
        decreases lines@.len() - i,
    {
        let ghost ls = views_of(lines@);
        let ghost ks = string_views_of(folded@);
        assert(ls.take(i + 1).drop_last() =~= ls.take(i as int));
        assert(ks.take(i + 1).drop_last() =~= ks.take(i as int));
        if str_contains(folded[i].as_str(), folded_query) {
            out.push(lines[i]);
        }
        assert(views_of(out@) =~= select_by_keys(ls.take(i + 1), ks.take(i + 1), folded_query@));
        i = i + 1;
    }
    assert(views_of(lines@).take(lines@.len() as int) =~= views_of(lines@));
    assert(string_views_of(folded@).take(lines@.len() as int) =~= string_views_of(folded@));
    out
}

/// The lines of `contents` that contain `query` once both are lower-cased.
pub fn search_case_insensitive<'a>(query: &str, contents: &'a str) -> (r: Vec<&'a str>)
    ensures
        views_of(r@) == select_by_keys(
            lines_of(contents@),
            lines_of(contents@).map_values(|l: Seq<char>| lower_of(l)),
            lower_of(query@),
        ),
{
    let folded_query = lowercase(query);
    let lines = split_lines(contents);
    let mut folded: Vec<String> = Vec::new();
    let mut i: usize = 0;
    while i < lines.len()
        invariant
            i <= lines@.len(),
            folded@.len() == i,
            forall|k: int| 0 <= k < i ==> #[trigger] folded@[k]@ == lower_of(lines@[k]@),
        decreases lines@.len() - i,
    {
        folded.push(lowercase(lines[i]));
        i = i + 1;
    }
    assert(string_views_of(folded@) =~= views_of(lines@).map_values(|l: Seq<char>| lower_of(l)));
    select_lines(&lines, &folded, folded_query.as_str())
}

/// The lines of `contents` that `config` asks for: matched as written when
/// it is case-sensitive, after lower-casing otherwise.
pub fn search<'a>(config: &Config, contents: &'a str) -> (r: Vec<&'a str>)
    ensures
        config.case_sensitive ==> views_of(r@) == select_by_keys(
            lines_of(contents@),
            lines_of(contents@),
            config.query@,
        ),
        !config.case_sensitive ==> views_of(r@) == select_by_keys(
            lines_of(contents@),
            lines_of(contents@).map_values(|l: Seq<char>| lower_of(l)),
            lower_of(config.query@),
        ),
{
    if config.case_sensitive {
        search_case_sensitive(config.query.as_str(), contents)
    } else {
        search_case_insensitive(config.query.as_str(), contents)
    }
}

/// What the search is asked to do.
pub struct Config {
    pub query: String,
    pub filename: String,
    pub case_sensitive: bool,
}

impl Config {
    /// Reads the query and the file name from the arguments after the program
    /// name; further arguments are ignored.
    pub fn new(args: Vec<String>, case_sensitive: bool) -> (r: Result<Config, &'static str>)
        ensures
            args@.len() < 2 ==> r == Err::<Config, &'static str>("Didn't get a query string."),
            args@.len() == 2 ==> r == Err::<Config, &'static str>("Didn't get a file name."),
            args@.len() > 2 ==> r is Ok && r->Ok_0.query@ == args@[1]@ && r->Ok_0.filename@
                == args@[2]@ && r->Ok_0.case_sensitive == case_sensitive,
    {
        if args.len() < 2 {
            return Err("Didn't get a query string.");
        }
        if args.len() < 3 {
            return Err("Didn't get a file name.");
        }
        let query = args[1].clone();
        let filename = args[2].clone();
        Ok(Config { query, filename, case_sensitive })
    }
}

} // verus!
