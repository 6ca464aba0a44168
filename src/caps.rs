//! Desktop notifications, and the capabilities that a notification server
//! reports, rendered as prose or as a JSON object.
use vstd::prelude::*;

verus! {

/// What a notification shows: a one-line summary and a body.
#[derive(Debug)]
pub struct Notification {
    pub summary: String,
    pub body: String,
}

/// The widest that text is wrapped, however wide the terminal.
pub const MAX_WIDTH: usize = 100;

pub const PROSE_HEADER: &'static str = "The current notifications server supports the following capabilities:\n";

pub const PROSE_INDENT: &'static str = "    ";

pub const NO_DESCRIPTION: &'static str = "No description.";

pub const UNKNOWN_DESCRIPTION: &'static str = "Unknown capability! No description available.";

pub const ACTION_ICONS: &'static str = r###"
            Supports using icons instead of text for displaying actions. Using
            icons for actions must be enabled on a per-notification basis using
            the "action-icons" hint.
            "###;

pub const ACTIONS: &'static str = r###"
            The server will provide the specified actions to the user. Even if
            this cap is missing, actions may still be specified by the client,
            however the server is free to ignore them.
            "###;

pub const BODY: &'static str = r###"
            Supports body text. Some implementations may only show the summary
            (for instance, onscreen displays, marquee/scrollers)
            "###;

pub const BODY_HYPERLINKS: &'static str = r###"
            The server supports hyperlinks in the notifications.
            "###;

pub const BODY_IMAGES: &'static str = r###"
            The server supports images in the notifications.
            "###;

pub const BODY_MARKUP: &'static str = r###"
            Supports markup in the body text. If marked up text is sent to a
            server that does not give this cap, the markup will show through as
            regular text so must be stripped clientside.
            "###;

pub const ICON_MULTI: &'static str = r###"
            The server will render an animation of all the frames in a given
            image array.  The client may still specify multiple frames even if
            this cap and/or "icon-static" is missing, however the server is free
            to ignore them and use only the primary frame.
            "###;

pub const ICON_STATIC: &'static str = r###"
            Supports display of exactly 1 frame of any given image array. This
            value is mutually exclusive with "icon-multi", it is a protocol
            error for the server to specify both.
            "###;

pub const PERSISTENCE: &'static str = r###"
            The server supports persistence of notifications. Notifications will
            be retained until they are acknowledged or removed by the user or
            recalled by the sender. The presence of this capability allows
            clients to depend on the server to ensure a notification is seen and
            eliminate the need for the client to display a reminding function
            descriptions.insert(such as a status icon) of its own.
            "###;

pub const SOUND: &'static str = r###"
            The server supports sounds on notifications. If returned, the server
            must support the "sound-file" and "suppress-sound" hints.
            "###;

/// What removing the common leading whitespace of every line of `s` gives.
pub uninterp spec fn dedented(s: Seq<char>) -> Seq<char>;

/// `s` without leading and trailing whitespace.
pub uninterp spec fn trimmed(s: Seq<char>) -> Seq<char>;

/// `text` wrapped into lines of at most `width` columns, each line after
/// `indent`, joined by newlines.
pub uninterp spec fn filled(width: nat, indent: Seq<char>, text: Seq<char>) -> Seq<char>;

/// `s` as a JSON string literal, quotes and escapes included.
pub uninterp spec fn json_quoted(s: Seq<char>) -> Seq<char>;

pub open spec fn newlines_to_spaces(s: Seq<char>) -> Seq<char> {
    s.map_values(|c: char| if c == '\n' { ' ' } else { c })
}

/// A description as it is shown: dedented, trimmed, and on one line.
pub open spec fn one_line(t: Seq<char>) -> Seq<char> {
    newlines_to_spaces(trimmed(dedented(t)))
}

/// Relies on `textwrap::dedent`: the result depends on the characters alone.
#[verifier::external_body]
fn dedent(s: &str) -> (r: String)
    ensures
        r@ == dedented(s@),
{
    textwrap::dedent(s)
}

/// Relies on `str::trim`: the result depends on the characters alone.
#[verifier::external_body]
fn trim(s: &str) -> (r: &str)
    ensures
        r@ == trimmed(s@),
{
    s.trim()
}

/// Relies on `str::replace` with a one-character pattern: each `\n` becomes a space.
#[verifier::external_body]
fn replace_newlines(s: &str) -> (r: String)
    ensures
        r@ == newlines_to_spaces(s@),
{
    s.replace("\n", " ")
}

/// Relies on `textwrap::Wrapper::fill`, with `indent` as the initial and the
/// subsequent indent and the default word splitter.
#[verifier::external_body]
fn fill(width: usize, indent: &str, text: &str) -> (r: String)
    ensures
        r@ == filled(width as nat, indent@, text@),
{
    textwrap::Wrapper::new(width).initial_indent(indent).subsequent_indent(indent).fill(text)
}

/// Relies on `serde_json::Value::String` and its `Display`: the compact JSON text of a string.
#[verifier::external_body]
fn json_quote(s: &str) -> (r: String)
    ensures
        r@ == json_quoted(s@),
{
    serde_json::Value::String(s.to_string()).to_string()
}

/// Relies on `textwrap::termwidth`: the width of the terminal on standard
/// output, or a default. It depends on the terminal; nothing is promised.
#[verifier::external_body]
fn terminal_width() -> (r: usize) {
    textwrap::termwidth()
}

/// The width to wrap at on a terminal `term` columns wide.
pub fn wrapper_width_for(term: usize) -> (r: usize)
    ensures
        r == if term < MAX_WIDTH { term } else { MAX_WIDTH },
{
    if term < MAX_WIDTH {
        term
    } else {
        MAX_WIDTH
    }
}

/// The width to wrap at on the current terminal.
pub fn get_wrapper_width() -> (r: usize)
    ensures
        r <= MAX_WIDTH,
{
    wrapper_width_for(terminal_width())
}

/// The known capabilities, each with the text that describes it.
pub open spec fn cap_table() -> Seq<(Seq<char>, Seq<char>)> {
    seq![
        ("action-icons"@, ACTION_ICONS@),
        ("actions"@, ACTIONS@),
        ("body"@, BODY@),
        ("body-hyperlinks"@, BODY_HYPERLINKS@),
        ("body-images"@, BODY_IMAGES@),
        ("body-markup"@, BODY_MARKUP@),
        ("icon-multi"@, ICON_MULTI@),
        ("icon-static"@, ICON_STATIC@),
        ("persistence"@, PERSISTENCE@),
        ("sound"@, SOUND@),
    ]
}

pub open spec fn pairs_view(t: Seq<(String, String)>) -> Seq<(Seq<char>, Seq<char>)> {
    t.map_values(|p: (String, String)| (p.0@, p.1@))
}

fn describe_entry(name: &str, text: &str) -> (r: (String, String))
    ensures
        r.0@ == name@,
        r.1@ == one_line(text@),
{
    let d = dedent(text);
    let t = trim(d.as_str());
    (String::from_str(name), replace_newlines(t))
}

/// Each known capability with its description on one line, in a fixed order.
pub fn get_cap_descriptions() -> (r: Vec<(String, String)>)
    ensures
        r@.len() == cap_table().len(),
        forall|i: int|
            0 <= i < r@.len() ==> (#[trigger] r@[i]).0@ == cap_table()[i].0 && r@[i].1@
                == one_line(cap_table()[i].1),
{
    let mut r: Vec<(String, String)> = Vec::new();
    r.push(describe_entry("action-icons", ACTION_ICONS));
    r.push(describe_entry("actions", ACTIONS));
    r.push(describe_entry("body", BODY));
    r.push(describe_entry("body-hyperlinks", BODY_HYPERLINKS));
    r.push(describe_entry("body-images", BODY_IMAGES));
    r.push(describe_entry("body-markup", BODY_MARKUP));
    r.push(describe_entry("icon-multi", ICON_MULTI));
    r.push(describe_entry("icon-static", ICON_STATIC));
    r.push(describe_entry("persistence", PERSISTENCE));
    r.push(describe_entry("sound", SOUND));
    r
}

/// The description that `table` gives first for `name`, if any.
pub open spec fn lookup(table: Seq<(Seq<char>, Seq<char>)>, name: Seq<char>) -> Option<Seq<char>>
    decreases table.len(),
{
    if table.len() == 0 {
        None
    } else if table[0].0 == name {
        Some(table[0].1)
    } else {
        lookup(table.drop_first(), name)
    }
}

pub open spec fn or_default(d: Option<Seq<char>>, default: Seq<char>) -> Seq<char> {
    match d {
        Some(s) => s,
        None => default,
    }
}

/// The description of `name` in `table`, from its first entry for that name.
pub fn find_description<'a>(table: &'a Vec<(String, String)>, name: &String) -> (r: Option<
    &'a String,
>)
    ensures
        r is Some <==> lookup(pairs_view(table@), name@) is Some,
        r is Some ==> r->Some_0@ == lookup(pairs_view(table@), name@)->Some_0,
{
    let ghost tv = pairs_view(table@);
    let mut i: usize = 0;
    assert(tv.skip(0) =~= tv);
    while i < table.len()
        invariant
            i <= table@.len(),
            tv == pairs_view(table@),
            lookup(tv, name@) == lookup(tv.skip(i as int), name@),
        decreases table@.len() - i,
    {
        assert(tv.skip(i as int).drop_first() =~= tv.skip(i + 1));
        if table[i].0 == *name {
            return Some(&table[i].1);
        }
        i = i + 1;
    }
    None
}

/// The lines of the prose listing: a wrapped header, then for each capability
/// its name and its indented, wrapped description.
pub fn list_caps_as_prose(
    capabilities: &Vec<String>,
    descriptions: &Vec<(String, String)>,
    width: usize,
) -> (r: Vec<String>)
    requires
        capabilities@.len() < usize::MAX / 2,
    ensures
        r@.len() == 1 + 2 * capabilities@.len(),
        r@[0]@ == filled(width as nat, Seq::empty(), PROSE_HEADER@),
        forall|i: int|
            0 <= i < capabilities@.len() ==> r@[1 + 2 * i]@ == (#[trigger] capabilities@[i])@
                && r@[2 + 2 * i]@ == filled(
                width as nat,
                PROSE_INDENT@,
                or_default(lookup(pairs_view(descriptions@), capabilities@[i]@), NO_DESCRIPTION@),
            ),
{
    let mut out: Vec<String> = Vec::new();
    proof {
        reveal_strlit("");
        assert(""@ =~= Seq::<char>::empty());
    }
    out.push(fill(width, "", PROSE_HEADER));
    let mut i: usize = 0;
    while i < capabilities.len()
        invariant
            i <= capabilities@.len(),
            capabilities@.len() < usize::MAX / 2,
            out@.len() == 1 + 2 * i,
            out@[0]@ == filled(width as nat, Seq::empty(), PROSE_HEADER@),
            forall|k: int|
                0 <= k < i ==> out@[1 + 2 * k]@ == (#[trigger] capabilities@[k])@ && out@[2 + 2
                    * k]@ == filled(
                    width as nat,
                    PROSE_INDENT@,
                    or_default(
                        lookup(pairs_view(descriptions@), capabilities@[k]@),
                        NO_DESCRIPTION@,
                    ),
                ),
        decreases capabilities@.len() - i,
    {
        let capability = &capabilities[i];
        out.push(capability.clone());
        let text = match find_description(descriptions, capability) {
            Some(value) => value.as_str(),
            None => NO_DESCRIPTION,
        };
        out.push(fill(width, PROSE_INDENT, text));
        i = i + 1;
    }
    out
}

/// `caps` with every repeated name after its first occurrence left out.
pub open spec fn first_occurrences(caps: Seq<Seq<char>>) -> Seq<Seq<char>>
    decreases caps.len(),
{
    if caps.len() == 0 {
        Seq::empty()
    } else {
        let p = first_occurrences(caps.drop_last());
        if p.contains(caps.last()) {
            p
        } else {
            p.push(caps.last())
        }
    }
}

/// One member of the JSON object: a name and its description.
pub open spec fn json_member(table: Seq<(Seq<char>, Seq<char>)>, name: Seq<char>) -> Seq<char> {
    json_quoted(name) + seq![':'] + json_quoted(
        or_default(lookup(table, name), UNKNOWN_DESCRIPTION@),
    )
}

/// The members for `names`, in order, separated by commas.
pub open spec fn json_members(table: Seq<(Seq<char>, Seq<char>)>, names: Seq<Seq<char>>) -> Seq<
    char,
>
    decreases names.len(),
{
    if names.len() == 0 {
        Seq::empty()
    } else if names.len() == 1 {
        json_member(table, names[0])
    } else {
        json_members(table, names.drop_last()) + seq![','] + json_member(table, names.last())
    }
}

pub open spec fn string_views(v: Seq<String>) -> Seq<Seq<char>> {
    v.map_values(|s: String| s@)
}

fn contains_string(v: &Vec<String>, s: &String) -> (r: bool)
    ensures
        r == string_views(v@).contains(s@),
{
    let mut i: usize = 0;
    while i < v.len()
        invariant
            i <= v@.len(),
            forall|k: int| 0 <= k < i ==> v@[k]@ != s@,
        decreases v@.len() - i,
    {
        if v[i] == *s {
            assert(string_views(v@)[i as int] == s@);
            return true;
        }
        i = i + 1;
    }
    proof {
        if string_views(v@).contains(s@) {
            let k = choose|k: int| 0 <= k < v@.len() && string_views(v@)[k] == s@;
            assert(v@[k]@ == s@);
        }
    }
    false
}

/// The capabilities as one JSON object that maps each name, once, to its
/// description, in the order the names first occur.
pub fn list_caps_as_json(capabilities: &Vec<String>, descriptions: &Vec<(String, String)>) -> (r:
    String)
    ensures
        r@ == seq!['{'] + json_members(
            pairs_view(descriptions@),
            first_occurrences(string_views(capabilities@)),
        ) + seq!['}'],
{
    let ghost table = pairs_view(descriptions@);
    let ghost caps = string_views(capabilities@);
    let mut seen: Vec<String> = Vec::new();
    let mut members = String::new();
    let mut i: usize = 0;
    while i < capabilities.len()
        invariant
            i <= capabilities@.len(),
            table == pairs_view(descriptions@),
            caps == string_views(capabilities@),
            string_views(seen@) == first_occurrences(caps.take(i as int)),
            members@ == json_members(table, string_views(seen@)),
        decreases capabilities@.len() - i,
    {
        let capability = &capabilities[i];
        assert(caps.take(i + 1).drop_last() =~= caps.take(i as int));
        if !contains_string(&seen, capability) {
            let description = match find_description(descriptions, capability) {
                Some(desc) => desc.as_str(),
                None => UNKNOWN_DESCRIPTION,
            };
            let ghost before = string_views(seen@);
            let ghost prefix = members@;
            if seen.len() > 0 {
                members.append(",");
            }
            let key = json_quote(capability.as_str());
            let value = json_quote(description);
            members.append(key.as_str());
            members.append(":");
            members.append(value.as_str());
            seen.push(capability.clone());
            assert(string_views(seen@) =~= before.push(capability@));
            assert(string_views(seen@).drop_last() =~= before);
            proof {
                reveal_strlit(":");
                reveal_strlit(",");
                assert(":"@ =~= seq![':']);
                assert(","@ =~= seq![',']);
                assert(key@ == json_quoted(capability@));
                assert(value@ == json_quoted(description@));
                assert(description@ == or_default(lookup(table, capability@), UNKNOWN_DESCRIPTION@));
                if before.len() == 0 {
                    assert(prefix =~= Seq::<char>::empty());
                    assert(members@ =~= json_member(table, capability@));
                } else {
                    assert(members@ =~= prefix + seq![','] + json_member(table, capability@));
                }
            }
            assert(members@ =~= json_members(table, string_views(seen@)));
        }
        i = i + 1;
    }
    assert(caps.take(capabilities@.len() as int) =~= caps);
    proof {
        reveal_strlit("{");
        reveal_strlit("}");
        assert("{"@ =~= seq!['{']);
        assert("}"@ =~= seq!['}']);
    }
    let r = String::from_str("{").concat(members.as_str()).concat("}");
    assert(r@ =~= seq!['{'] + members@ + seq!['}']);
    r
}

/// How the capability listing is written out.
#[derive(Debug, Clone, Copy, PartialEq, Eq, Structural)]
pub enum CapsFormat {
    Json,
    Prose,
}

/// The format that `name` asks for, if it names one.
pub fn parse_format(name: &str) -> (r: Option<CapsFormat>)
    ensures
        r == Some(CapsFormat::Json) <==> name@ == "json"@,
        r == Some(CapsFormat::Prose) <==> name@ == "prose"@,
        r is None <==> name@ != "json"@ && name@ != "prose"@,
{
    proof {
        reveal_strlit("json");
        reveal_strlit("prose");
        assert("json"@[0] != "prose"@[0]);
    }
    let s = String::from_str(name);
    if s == String::from_str("json") {
        Some(CapsFormat::Json)
    } else if s == String::from_str("prose") {
        Some(CapsFormat::Prose)
    } else {
        None
    }
}

/// The lines that list `capabilities` in `format`, wrapped at `width` when in prose.
pub fn list_caps(
    format: CapsFormat,
    capabilities: &Vec<String>,
    width: usize,
) -> (r: Vec<String>)
    requires
        capabilities@.len() < usize::MAX / 2,
    ensures
        format == CapsFormat::Json ==> r@.len() == 1 && r@[0]@ == seq!['{'] + json_members(
            cap_descriptions_view(),
            first_occurrences(string_views(capabilities@)),
        ) + seq!['}'],
        format == CapsFormat::Prose ==> r@.len() == 1 + 2 * capabilities@.len() && r@[0]@
            == filled(width as nat, Seq::empty(), PROSE_HEADER@) && forall|i: int|
            0 <= i < capabilities@.len() ==> r@[1 + 2 * i]@ == (#[trigger] capabilities@[i])@
                && r@[2 + 2 * i]@ == filled(
                width as nat,
                PROSE_INDENT@,
                or_default(lookup(cap_descriptions_view(), capabilities@[i]@), NO_DESCRIPTION@),
            ),
{
    let descriptions = get_cap_descriptions();
    proof {
        assert(pairs_view(descriptions@) =~= cap_descriptions_view());
    }
    match format {
        CapsFormat::Json => {
            let mut r: Vec<String> = Vec::new();
            r.push(list_caps_as_json(capabilities, &descriptions));
            r
        },
        CapsFormat::Prose => list_caps_as_prose(capabilities, &descriptions, width),
    }
}

/// The table of descriptions as `get_cap_descriptions` gives it.
pub open spec fn cap_descriptions_view() -> Seq<(Seq<char>, Seq<char>)> {
    cap_table().map_values(|p: (Seq<char>, Seq<char>)| (p.0, one_line(p.1)))
}

} // verus!
