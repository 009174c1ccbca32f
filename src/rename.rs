//! The file-renaming tool: a new name for a music file, taken from its tags
//! through a template, or cleaned of numbering and source prefixes.
use crate::text::{
    decimal, decimal_text, lemma_text_lt_asymmetric, replace_all, replace_text, same_text, text_before,
    text_lt, trim, trimmed, two_digit_text, two_digits,
};
use vstd::prelude::*;
use vstd::string::{StrSliceExecFns, StringExecFns};

verus! {

/// How names are chosen: `mode` is `"tags"`, `"rules"` or `"auto"` (tags
/// first, rules when the tags give nothing new); any other mode renames nothing.
#[derive(Clone, Debug)]
pub struct RenameConfig {
    pub mode: String,
    pub template: String,
    pub remove_track_prefix: bool,
    pub remove_source_prefix: bool,
}

/// The proposed new name of one file. `status` is `"tags"` or `"rules"`
/// (by which way it changed) or `"skipped"`, with the reason in `error`.
#[derive(Clone, Debug)]
pub struct RenamePreview {
    pub original_path: String,
    pub original_name: String,
    pub new_name: String,
    pub status: String,
    pub error: Option<String>,
}

/// A rename to carry out: the file at `original_path` takes `new_name` in its
/// own folder.
#[derive(Clone, Debug)]
pub struct RenameOperation {
    pub original_path: String,
    pub new_name: String,
}

/// The tag fields that a template can use; absent text fields are empty.
#[derive(Clone, Debug)]
pub struct TrackTags {
    pub title: String,
    pub artist: String,
    pub album: String,
    pub year: Option<u32>,
    pub track: Option<u32>,
}

/// A file's path and the parts of its name: the full name, the name without
/// its extension (if it has one) and the extension (empty if none).
#[derive(Clone, Debug)]
pub struct FileNameParts {
    pub path: String,
    pub name: String,
    pub stem: Option<String>,
    pub extension: String,
}

/// Characters that no file name on a common system may hold.
pub open spec fn is_reserved(c: char) -> bool {
    c == '<' || c == '>' || c == ':' || c == '"' || c == '/' || c == '\\' || c == '|' || c == '?' || c == '*'
}

pub open spec fn underscored(s: Seq<char>) -> Seq<char> {
    Seq::new(s.len(), |i: int| if is_reserved(s[i]) { '_' } else { s[i] })
}

/// A text made fit to be a file name: reserved characters become `_`, and
/// surrounding whitespace goes.
pub open spec fn sanitized(s: Seq<char>) -> Seq<char> {
    trimmed(underscored(s))
}

/// Whether the regular expression `pattern` compiles.
pub uninterp spec fn regex_compiles(pattern: Seq<char>) -> bool;

/// `s` with the leftmost match of the regular expression `pattern` removed.
pub uninterp spec fn regex_first_removed(pattern: Seq<char>, s: Seq<char>) -> Seq<char>;

/// Relies on `regex::Regex::new`, which fails only on a pattern that does not
/// compile, and `regex::Regex::replace` with an empty replacement, which
/// removes the leftmost match; both depend on their arguments alone.
#[verifier::external_body]
fn remove_first_match(pattern: &str, s: &str) -> (r: Option<String>)
    ensures
        r is Some <==> regex_compiles(pattern@),
        r matches Some(t) ==> t@ == regex_first_removed(pattern@, s@),
{
    match regex::Regex::new(pattern) {
        Ok(re) => Some(re.replace(s, "").into_owned()),
        Err(_) => None,
    }
}

/// A leading track number and the separators after it (`"01 - "`).
pub open spec fn track_number_pattern() -> Seq<char> {
    "^\\d+[\\.\\-\\s]+"@
}

/// A leading bracketed source tag and the spaces around it (`"[web] "`).
pub open spec fn source_tag_pattern() -> Seq<char> {
    "^\\s*\\[.*?\\]\\s*"@
}

pub open spec fn without_match(pattern: Seq<char>, s: Seq<char>) -> Seq<char> {
    if regex_compiles(pattern) { regex_first_removed(pattern, s) } else { s }
}

/// The name a template gives a file with these tags.
pub open spec fn rendered(template: Seq<char>, t: TrackTags) -> Seq<char> {
    let year = match t.year { Some(y) => decimal(y as nat), None => Seq::empty() };
    let track = match t.track { Some(n) => two_digits(n as nat), None => Seq::empty() };
    replace_all(
        replace_all(
            replace_all(
                replace_all(replace_all(template, "{title}"@, t.title@), "{artist}"@, t.artist@),
                "{album}"@,
                t.album@,
            ),
            "{year}"@,
            year,
        ),
        "{track}"@,
        track,
    )
}

pub open spec fn name_from_tags(template: Seq<char>, t: TrackTags, ext: Seq<char>) -> Seq<char> {
    sanitized(rendered(template, t)) + "."@ + ext
}

/// The name the cleaning rules give a file.
pub open spec fn name_from_rules(p: FileNameParts, c: RenameConfig) -> Seq<char> {
    match p.stem {
        None => p.name@,
        Some(stem) => {
            let a = if c.remove_track_prefix { without_match(track_number_pattern(), stem@) } else { stem@ };
            let b = if c.remove_source_prefix { without_match(source_tag_pattern(), a) } else { a };
            trimmed(b) + "."@ + p.extension@
        },
    }
}

/// The outcome for one file: new name, status and reason for a skip.
pub ghost struct Decision {
    pub new_name: Seq<char>,
    pub status: Seq<char>,
    pub error: Option<Seq<char>>,
}

pub open spec fn skipped(p: FileNameParts, why: Seq<char>) -> Decision {
    Decision { new_name: p.name@, status: "skipped"@, error: Some(why) }
}

pub open spec fn decide_by_rules(p: FileNameParts, c: RenameConfig) -> Decision {
    if (c.mode@ == "rules"@ || c.mode@ == "auto"@) && name_from_rules(p, c) != p.name@ {
        Decision { new_name: name_from_rules(p, c), status: "rules"@, error: None }
    } else {
        skipped(p, "No rules matched or missing tags"@)
    }
}

/// What the tool proposes for a file with name parts `p` and tags `tags`
/// (`None` when none could be read).
pub open spec fn decide(p: FileNameParts, c: RenameConfig, tags: Option<TrackTags>) -> Decision {
    if c.mode@ == "tags"@ || c.mode@ == "auto"@ {
        match tags {
            Some(t) if t.title@.len() > 0 => {
                let n = name_from_tags(c.template@, t, p.extension@);
                if n != p.name@ {
                    Decision { new_name: n, status: "tags"@, error: None }
                } else if c.mode@ == "tags"@ {
                    skipped(p, "Already named correctly"@)
                } else {
                    decide_by_rules(p, c)
                }
            },
            _ => if c.mode@ == "tags"@ { skipped(p, "Missing tags"@) } else { decide_by_rules(p, c) },
        }
    } else {
        decide_by_rules(p, c)
    }
}

pub open spec fn decision_of(r: RenamePreview) -> Decision {
    Decision {
        new_name: r.new_name@,
        status: r.status@,
        error: match r.error { Some(e) => Some(e@), None => None },
    }
}

/// `name` with each reserved character replaced by `_` and surrounding
/// whitespace removed.
pub fn sanitize_filename(name: &str) -> (r: String)
    ensures
        r@ == sanitized(name@),
{
    let n = name.unicode_len();
    let mut out = String::new();
    let mut i: usize = 0;
    while i < n
        invariant
            i <= n,
            n == name@.len(),
            out@ =~= underscored(name@).subrange(0, i as int),
        decreases n - i,
    {
        let c = name.get_char(i);
        if c == '<' || c == '>' || c == ':' || c == '"' || c == '/' || c == '\\' || c == '|' || c == '?' || c == '*' {
            proof {
                reveal_strlit("_");
            }
            out.append("_");
        } else {
            out.append(name.substring_char(i, i + 1));
        }
        i += 1;
    }
    assert(out@ =~= underscored(name@));
    trim(out.as_str())
}

fn strip_rule(pattern: &str, s: String) -> (r: String)
    ensures
        r@ == without_match(pattern@, s@),
{
    match remove_first_match(pattern, s.as_str()) {
        Some(t) => t,
        None => s,
    }
}

/// The new name that the template gives a file with these tags.
pub fn render_name(template: &str, tags: &TrackTags, extension: &str) -> (r: String)
    ensures
        r@ == name_from_tags(template@, *tags, extension@),
{
    let year = match tags.year { Some(y) => decimal_text(y), None => String::new() };
    let track = match tags.track { Some(n) => two_digit_text(n), None => String::new() };
    proof {
        reveal_strlit("{title}");
        reveal_strlit("{artist}");
        reveal_strlit("{album}");
        reveal_strlit("{year}");
        reveal_strlit("{track}");
    }
    let a = replace_text(template, "{title}", tags.title.as_str());
    let b = replace_text(a.as_str(), "{artist}", tags.artist.as_str());
    let c = replace_text(b.as_str(), "{album}", tags.album.as_str());
    let d = replace_text(c.as_str(), "{year}", year.as_str());
    let e = replace_text(d.as_str(), "{track}", track.as_str());
    let mut name = sanitize_filename(e.as_str());
    name.append(".");
    name.append(extension);
    name
}

/// The name the cleaning rules give a file.
pub fn clean_name(parts: &FileNameParts, config: &RenameConfig) -> (r: String)
    ensures
        r@ == name_from_rules(*parts, *config),
{
    match &parts.stem {
        None => parts.name.clone(),
        Some(stem) => {
            let mut s = stem.clone();
            if config.remove_track_prefix {
                s = strip_rule("^\\d+[\\.\\-\\s]+", s);
            }
            if config.remove_source_prefix {
                s = strip_rule("^\\s*\\[.*?\\]\\s*", s);
            }
            let mut name = trim(s.as_str());
            name.append(".");
            name.append(parts.extension.as_str());
            name
        },
    }
}

fn skip_file(parts: &FileNameParts, why: &str) -> (r: RenamePreview)
    ensures
        r.original_path@ == parts.path@,
        r.original_name@ == parts.name@,
        decision_of(r) == skipped(*parts, why@),
{
    RenamePreview {
        original_path: parts.path.clone(),
        original_name: parts.name.clone(),
        new_name: parts.name.clone(),
        status: "skipped".to_owned(),
        error: Some(why.to_owned()),
    }
}

fn rename_by_rules(parts: &FileNameParts, config: &RenameConfig) -> (r: RenamePreview)
    ensures
        r.original_path@ == parts.path@,
        r.original_name@ == parts.name@,
        decision_of(r) == decide_by_rules(*parts, *config),
{
    if same_text(config.mode.as_str(), "rules") || same_text(config.mode.as_str(), "auto") {
        let cleaned = clean_name(parts, config);
        if !(cleaned == parts.name) {
            return RenamePreview {
                original_path: parts.path.clone(),
                original_name: parts.name.clone(),
                new_name: cleaned,
                status: "rules".to_owned(),
                error: None,
            };
        }
    }
    skip_file(parts, "No rules matched or missing tags")
}

/// The proposal for one file, given the parts of its name and the tags read
/// from it (`None` when it has none or they could not be read).
pub fn process_file(parts: &FileNameParts, config: &RenameConfig, tags: &Option<TrackTags>) -> (r: RenamePreview)
    ensures
        r.original_path@ == parts.path@,
        r.original_name@ == parts.name@,
        decision_of(r) == decide(*parts, *config, *tags),
{
    let tags_only = same_text(config.mode.as_str(), "tags");
    if tags_only || same_text(config.mode.as_str(), "auto") {
        if let Some(t) = tags {
            if !t.title.as_str().is_empty() {
                let new_name = render_name(config.template.as_str(), t, parts.extension.as_str());
                if !(new_name == parts.name) {
                    return RenamePreview {
                        original_path: parts.path.clone(),
                        original_name: parts.name.clone(),
                        new_name,
                        status: "tags".to_owned(),
                        error: None,
                    };
                } else if tags_only {
                    return skip_file(parts, "Already named correctly");
                }
                return rename_by_rules(parts, config);
            }
        }
        if tags_only {
            return skip_file(parts, "Missing tags");
        }
    }
    rename_by_rules(parts, config)
}

/// Whether the preview proposes a change.
pub open spec fn is_change(p: RenamePreview) -> bool {
    p.status@ != "skipped"@
}

/// `a` is listed strictly before `b`: changes come first, and within each
/// part names go in the order of `text_lt`.
pub open spec fn listed_before(a: RenamePreview, b: RenamePreview) -> bool {
    (is_change(a) && !is_change(b))
    || (is_change(a) == is_change(b) && text_lt(a.original_name@, b.original_name@))
}

/// No two neighbours stand in the wrong order.
pub open spec fn is_listed_in_order(s: Seq<RenamePreview>) -> bool {
    forall|i: int| 0 <= i < s.len() - 1 ==> !listed_before(#[trigger] s[i + 1], s[i])
}

fn comes_before(a: &RenamePreview, b: &RenamePreview) -> (r: bool)
    ensures
        r == listed_before(*a, *b),
{
    let ca = !same_text(a.status.as_str(), "skipped");
    let cb = !same_text(b.status.as_str(), "skipped");
    (ca && !cb) || (ca == cb && text_before(a.original_name.as_str(), b.original_name.as_str()))
}

/// The previews in the order they are shown: changes first, each part by
/// name.
pub fn order_previews(v: Vec<RenamePreview>) -> (r: Vec<RenamePreview>)
    ensures
        r@.to_multiset() == v@.to_multiset(),
        is_listed_in_order(r@),
{
    broadcast use vstd::seq_lib::group_to_multiset_ensures;
    let mut rest = v;
    let mut out: Vec<RenamePreview> = Vec::new();
    while rest.len() > 0
        invariant
            out@.to_multiset().add(rest@.to_multiset()) == v@.to_multiset(),
            is_listed_in_order(out@),
        decreases rest.len(),
    {
        let ghost before_pop = rest@;
        let x = rest.pop().unwrap();
        proof {
            assert(before_pop =~= rest@.push(x));
            vstd::seq_lib::to_multiset_build(rest@, x);
        }
        let mut k: usize = 0;
        while k < out.len() && comes_before(&out[k], &x)
            invariant
                k <= out.len(),
                forall|j: int| 0 <= j < k ==> listed_before(#[trigger] out@[j], x),
                is_listed_in_order(out@),
                out@.to_multiset().add(rest@.to_multiset().insert(x)) == v@.to_multiset(),
            decreases out.len() - k,
        {
            k += 1;
        }
        let ghost old_out = out@;
        proof {
            if k < old_out.len() {
                assert(!listed_before(old_out[k as int], x));
            }
            if k > 0 {
                assert(listed_before(old_out[k - 1], x));
                lemma_text_lt_asymmetric(old_out[k - 1].original_name@, x.original_name@);
                assert(!listed_before(x, old_out[k - 1]));
            }
            vstd::seq_lib::to_multiset_insert(old_out, k as int, x);
        }
        out.insert(k, x);
        proof {
            let t = out@;
            assert(t == old_out.insert(k as int, x));
            assert forall|i: int| 0 <= i < t.len() - 1 implies !listed_before(#[trigger] t[i + 1], t[i]) by {
                if i + 1 < k {
                    assert(t[i] == old_out[i] && t[i + 1] == old_out[i + 1]);
                    assert(!listed_before(old_out[i + 1], old_out[i]));
                } else if i + 1 == k {
                    assert(t[i] == old_out[i] && t[i + 1] == x);
                } else if i == k {
                    assert(t[i] == x && t[i + 1] == old_out[i]);
                } else {
                    assert(t[i] == old_out[i - 1] && t[i + 1] == old_out[i]);
                    assert(!listed_before(old_out[(i - 1) + 1], old_out[i - 1]));
                }
            }
        }
    }
    proof {
        assert(rest@.to_multiset() =~= vstd::multiset::Multiset::empty());
    }
    out
}

} // verus!
