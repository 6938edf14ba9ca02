//! What kind of text a paste holds, and how it is made fit for display.

use crate::util::text::{
    chars_of, char_is_ascii_digit, contains, contains_char, count_contained, count_occurring,
    ends_with, find, first_index, is_ascii_digit, lines, lowercase, occurs_in, push_str, skip,
    split_first_line, starts_with, starts_with_any, starts_with_one_of, string_of, take, trim,
    trimmed,
};
use ammonia::Builder;
use comrak::{ExtensionOptions, Options, ParseOptions, RenderOptions};
use vstd::prelude::*;
use vstd::string::StrSliceExecFns;

verus! {

/// The kind of text that a paste holds, as far as its content shows.
#[derive(Clone, Copy, Debug, PartialEq, Eq, Structural)]
pub enum ContentType {
    /// Lines with the marks of markdown: headers, lists, code fences and the like.
    Markdown,
    /// An HTML document, or text with the tags of block elements.
    Html,
    /// Anything else.
    PlainText,
}

/// What an HTML document begins with.
pub open spec fn html_openers() -> Seq<&'static str> {
    seq!["<!DOCTYPE", "<!doctype", "<html", "<HTML"]
}

/// The beginnings of the tags of HTML block elements, in lower case.
pub open spec fn html_block_tags() -> Seq<&'static str> {
    seq![
        "<div",
        "<section",
        "<article",
        "<header",
        "<footer",
        "<nav",
        "<main",
        "<aside",
        "<table",
        "<form",
        "<body",
        "<head",
    ]
}

/// The text looks like HTML: apart from white space it begins like an HTML document, or it
/// holds, in whatever case, the tags of two or more different block elements.
pub open spec fn looks_like_html(content: Seq<char>) -> bool {
    starts_with_one_of(trimmed(content), html_openers()) || count_occurring(
        lowercase(content),
        html_block_tags(),
    ) >= 2
}

/// Whether a text begins, apart from white space, like an HTML document.
pub fn has_html_opening(content: &str) -> (b: bool)
    ensures
        b == starts_with_one_of(trimmed(content@), html_openers()),
{
    let openers: Vec<&'static str> = vec!["<!DOCTYPE", "<!doctype", "<html", "<HTML"];
    assert(openers@ =~= html_openers());
    let chars = chars_of(content);
    starts_with_any(trim(chars.as_slice()), openers.as_slice())
}

/// Whether a text, given in lower case, holds the tags of two or more different block
/// elements.
pub fn has_html_blocks(lowercase_content: &str) -> (b: bool)
    ensures
        b == (count_occurring(lowercase_content@, html_block_tags()) >= 2),
{
    let tags: Vec<&'static str> = vec![
        "<div",
        "<section",
        "<article",
        "<header",
        "<footer",
        "<nav",
        "<main",
        "<aside",
        "<table",
        "<form",
        "<body",
        "<head",
    ];
    assert(tags@ =~= html_block_tags());
    let chars = chars_of(lowercase_content);
    count_contained(chars.as_slice(), tags.as_slice()) >= 2
}

/// Whether the text looks like HTML.
pub fn is_html_content(content: &str) -> (b: bool)
    ensures
        b == looks_like_html(content@),
{
    if has_html_opening(content) {
        return true;
    }
    let lower_content = content.to_lowercase();
    has_html_blocks(lower_content.as_str())
}

/// The number of `#` that `line` begins with.
pub open spec fn leading_hashes(line: Seq<char>) -> int
    decreases line.len(),
{
    if line.len() > 0 && line.first() == '#' {
        1 + leading_hashes(line.drop_first())
    } else {
        0
    }
}

/// The line is a header: one or more `#` and then a space.
pub open spec fn is_header(line: Seq<char>) -> bool {
    let n = leading_hashes(line);
    0 < n < line.len() && line[n] == ' '
}

/// The line is an item of a numbered list: it begins with a digit, and what stands before
/// its first full stop with a space behind it is all digits.
pub open spec fn is_numbered_item(line: Seq<char>) -> bool {
    &&& line.len() > 0
    &&& is_ascii_digit(line[0])
    &&& first_index(line, ". "@) is Some
    &&& forall|j: int| 0 <= j < first_index(line, ". "@)->0 ==> is_ascii_digit(#[trigger] line[j])
}

/// What a line, taken without the white space around it, adds to the markdown score of a
/// text: 2 for a header, 2 for a code fence, 1 for an item of a list with bullets, 1 for an
/// item of a numbered list, 1 for a link or an image, 1 for bold text, 1 for a quotation,
/// and 2 for a row of a table.
pub open spec fn line_score(line: Seq<char>) -> nat {
    (if is_header(line) { 2nat } else { 0nat })
    + (if "```"@.is_prefix_of(line) { 2nat } else { 0nat })
    + (if "- "@.is_prefix_of(line) || "* "@.is_prefix_of(line) { 1nat } else { 0nat })
    + (if is_numbered_item(line) { 1nat } else { 0nat })
    + (if line.contains('[') && occurs_in(line, "]("@) { 1nat } else { 0nat })
    + (if occurs_in(line, "**"@) || occurs_in(line, "__"@) { 1nat } else { 0nat })
    + (if "> "@.is_prefix_of(line) { 1nat } else { 0nat })
    + (if "|"@.is_prefix_of(line) && "|"@.is_suffix_of(line) { 2nat } else { 0nat })
}

/// The markdown score of some lines: what they add to it, one with another.
pub open spec fn markdown_score(lines: Seq<Seq<char>>) -> nat
    decreases lines.len(),
{
    if lines.len() == 0 {
        0
    } else {
        line_score(trimmed(lines.first())) + markdown_score(lines.drop_first())
    }
}

/// The score that a text of `lines` lines has to reach to count as markdown: a tenth of the
/// number of its lines, and 2 at the least.
pub open spec fn markdown_threshold(lines: nat) -> nat {
    if lines / 10 > 2 {
        lines / 10
    } else {
        2
    }
}

/// The text looks like markdown: its lines reach the score that its length asks for.
pub open spec fn looks_like_markdown(content: Seq<char>) -> bool {
    markdown_score(lines(content)) >= markdown_threshold(lines(content).len())
}

/// Whether the line is a header.
fn line_is_header(line: &[char]) -> (b: bool)
    ensures
        b == is_header(line@),
{
    let mut n: usize = 0;
    assert(line@.skip(0) =~= line@);
    while n < line.len() && line[n] == '#'
        invariant
            n <= line.len(),
            leading_hashes(line@) == n + leading_hashes(line@.skip(n as int)),
        decreases line.len() - n,
    {
        assert(line@.skip(n as int).drop_first() =~= line@.skip(n + 1));
        n += 1;
    }
    n > 0 && n < line.len() && line[n] == ' '
}

/// Whether the line is an item of a numbered list.
fn line_is_numbered_item(line: &[char]) -> (b: bool)
    ensures
        b == is_numbered_item(line@),
{
    if line.len() == 0 || !char_is_ascii_digit(line[0]) {
        return false;
    }
    let stop = chars_of(". ");
    match find(line, stop.as_slice()) {
        None => false,
        Some(end) => {
            let mut j: usize = 0;
            while j < end
                invariant
                    j <= end,
                    end <= line.len(),
                    first_index(line@, ". "@) == Some(end as int),
                    forall|k: int| 0 <= k < j ==> is_ascii_digit(#[trigger] line@[k]),
                decreases end - j,
            {
                if !char_is_ascii_digit(line[j]) {
                    return false;
                }
                j += 1;
            }
            true
        },
    }
}

/// What the line adds to the markdown score.
pub fn score_line(line: &[char]) -> (score: u8)
    ensures
        score == line_score(line@),
        score <= 11,
{
    let fence = chars_of("```");
    let dash = chars_of("- ");
    let star = chars_of("* ");
    let link = chars_of("](");
    let bold = chars_of("**");
    let strong = chars_of("__");
    let quote = chars_of("> ");
    let bar = chars_of("|");
    let mut score: u8 = 0;
    if line_is_header(line) {
        score += 2;
    }
    if starts_with(line, fence.as_slice()) {
        score += 2;
    }
    if starts_with(line, dash.as_slice()) || starts_with(line, star.as_slice()) {
        score += 1;
    }
    if line_is_numbered_item(line) {
        score += 1;
    }
    if contains_char(line, '[') && contains(line, link.as_slice()) {
        score += 1;
    }
    if contains(line, bold.as_slice()) || contains(line, strong.as_slice()) {
        score += 1;
    }
    if starts_with(line, quote.as_slice()) {
        score += 1;
    }
    if starts_with(line, bar.as_slice()) && ends_with(line, bar.as_slice()) {
        score += 2;
    }
    score
}

/// Whether the text looks like markdown.
pub fn is_markdown_content(content: &str) -> (b: bool)
    ensures
        b == looks_like_markdown(content@),
{
    let chars = chars_of(content);
    let mut rest: &[char] = chars.as_slice();
    let mut count: usize = 0;
    let mut score: u128 = 0;
    while rest.len() > 0
        invariant
            lines(chars@).len() == count + lines(rest@).len(),
            markdown_score(lines(chars@)) == score + markdown_score(lines(rest@)),
            count + rest.len() <= chars.len(),
            score <= 11 * count,
        decreases rest.len(),
    {
        let (line, tail) = split_first_line(rest);
        proof {
            let all = seq![line@] + lines(tail@);
            assert(all.first() == line@);
            assert(all.drop_first() =~= lines(tail@));
        }
        score += score_line(trim(line)) as u128;
        count += 1;
        rest = tail;
    }
    assert(lines(rest@) =~= Seq::<Seq<char>>::empty());
    let tenth: usize = count / 10;
    let threshold: usize = if tenth > 2 {
        tenth
    } else {
        2
    };
    score >= threshold as u128
}

/// The kind of text that `content` looks like. HTML is looked for first.
pub fn detect_content_type(content: &str) -> (kind: ContentType)
    ensures
        kind == (if looks_like_html(content@) {
            ContentType::Html
        } else if looks_like_markdown(content@) {
            ContentType::Markdown
        } else {
            ContentType::PlainText
        }),
{
    if is_html_content(content) {
        return ContentType::Html;
    }
    if is_markdown_content(content) {
        return ContentType::Markdown;
    }
    ContentType::PlainText
}

/// What stands for a character in HTML text: an entity for `&`, `<` and `>`, the character
/// itself for every other.
pub open spec fn text_entity(c: char) -> Seq<char> {
    if c == '&' {
        "&amp;"@
    } else if c == '<' {
        "&lt;"@
    } else if c == '>' {
        "&gt;"@
    } else {
        seq![c]
    }
}

/// What stands for a character in an attribute between double quotes: as in text, and an
/// entity for `"` too.
pub open spec fn attribute_entity(c: char) -> Seq<char> {
    if c == '"' {
        "&quot;"@
    } else {
        text_entity(c)
    }
}

/// A text made fit for HTML text.
pub open spec fn escaped_text(s: Seq<char>) -> Seq<char>
    decreases s.len(),
{
    if s.len() == 0 {
        Seq::empty()
    } else {
        escaped_text(s.drop_last()) + text_entity(s.last())
    }
}

/// A text made fit for an attribute between double quotes.
pub open spec fn escaped_attribute(s: Seq<char>) -> Seq<char>
    decreases s.len(),
{
    if s.len() == 0 {
        Seq::empty()
    } else {
        escaped_attribute(s.drop_last()) + attribute_entity(s.last())
    }
}

/// Appends what stands for a character in HTML text.
fn push_text_entity(out: &mut Vec<char>, c: char)
    ensures
        final(out)@ == old(out)@ + text_entity(c),
{
    if c == '&' {
        push_str(out, "&amp;");
    } else if c == '<' {
        push_str(out, "&lt;");
    } else if c == '>' {
        push_str(out, "&gt;");
    } else {
        out.push(c);
        assert(out@ =~= old(out)@ + seq![c]);
    }
}

/// A text made fit for HTML text: `&`, `<` and `>` are replaced by their entities.
pub fn escape_text(content: &str) -> (out: String)
    ensures
        out@ == escaped_text(content@),
{
    let chars = chars_of(content);
    let mut out: Vec<char> = Vec::new();
    let mut i: usize = 0;
    while i < chars.len()
        invariant
            i <= chars.len(),
            out@ == escaped_text(chars@.take(i as int)),
        decreases chars.len() - i,
    {
        assert(chars@.take(i + 1).drop_last() =~= chars@.take(i as int));
        push_text_entity(&mut out, chars[i]);
        i += 1;
    }
    assert(chars@.take(chars.len() as int) =~= chars@);
    string_of(out.as_slice())
}

/// An HTML document made fit for the `srcdoc` attribute of a frame: `&`, `<`, `>` and `"`
/// are replaced by their entities.
pub fn prepare_html_for_iframe(content: &str) -> (out: String)
    ensures
        out@ == escaped_attribute(content@),
{
    let chars = chars_of(content);
    let mut out: Vec<char> = Vec::new();
    let mut i: usize = 0;
    while i < chars.len()
        invariant
            i <= chars.len(),
            out@ == escaped_attribute(chars@.take(i as int)),
        decreases chars.len() - i,
    {
        assert(chars@.take(i + 1).drop_last() =~= chars@.take(i as int));
        let c = chars[i];
        if c == '"' {
            push_str(&mut out, "&quot;");
        } else {
            push_text_entity(&mut out, c);
        }
        i += 1;
    }
    assert(chars@.take(chars.len() as int) =~= chars@);
    string_of(out.as_slice())
}

/// What stands for a character in a template literal of a script: a backslash goes before
/// a backslash, a backtick and a dollar sign.
pub open spec fn script_escape(c: char) -> Seq<char> {
    if c == '\\' || c == '`' || c == '$' {
        seq!['\\', c]
    } else {
        seq![c]
    }
}

/// A text made fit for a template literal of a script.
pub open spec fn escaped_for_script(s: Seq<char>) -> Seq<char>
    decreases s.len(),
{
    if s.len() == 0 {
        Seq::empty()
    } else {
        escaped_for_script(s.drop_last()) + script_escape(s.last())
    }
}

/// A text made fit for a template literal of a script.
pub fn escape_for_script(content: &str) -> (out: String)
    ensures
        out@ == escaped_for_script(content@),
{
    let chars = chars_of(content);
    let mut out: Vec<char> = Vec::new();
    let mut i: usize = 0;
    while i < chars.len()
        invariant
            i <= chars.len(),
            out@ == escaped_for_script(chars@.take(i as int)),
        decreases chars.len() - i,
    {
        assert(chars@.take(i + 1).drop_last() =~= chars@.take(i as int));
        let c = chars[i];
        if c == '\\' || c == '`' || c == '$' {
            out.push('\\');
        }
        out.push(c);
        assert(out@ =~= escaped_for_script(chars@.take(i as int)) + script_escape(c));
        i += 1;
    }
    assert(chars@.take(chars.len() as int) =~= chars@);
    string_of(out.as_slice())
}

/// The attributes that a tag may carry.
#[derive(Debug)]
pub struct TagAttributes {
    /// The tag.
    pub tag: &'static str,
    /// The attributes that are kept on it.
    pub attributes: Vec<&'static str>,
}

/// What the sanitiser lets through, beyond what it lets through by itself.
#[derive(Debug)]
pub struct SanitizerPolicy {
    /// Tags that are kept.
    pub tags: Vec<&'static str>,
    /// Attributes that are kept on a tag.
    pub tag_attributes: Vec<TagAttributes>,
    /// The schemes that a URL may have; these stand in place of the sanitiser's own.
    pub url_schemes: Vec<&'static str>,
    /// The `rel` attribute that every link gets.
    pub link_rel: Option<&'static str>,
}

/// The model of a [`SanitizerPolicy`].
pub struct SanitizerPolicyView {
    pub tags: Seq<Seq<char>>,
    pub tag_attributes: Seq<(Seq<char>, Seq<Seq<char>>)>,
    pub url_schemes: Seq<Seq<char>>,
    pub link_rel: Option<Seq<char>>,
}

/// The texts of some string literals.
pub open spec fn texts(names: Seq<&'static str>) -> Seq<Seq<char>> {
    names.map_values(|name: &'static str| name@)
}

impl View for SanitizerPolicy {
    type V = SanitizerPolicyView;

    open spec fn view(&self) -> SanitizerPolicyView {
        SanitizerPolicyView {
            tags: texts(self.tags@),
            tag_attributes: self.tag_attributes@.map_values(
                |entry: TagAttributes| (entry.tag@, texts(entry.attributes@)),
            ),
            url_schemes: texts(self.url_schemes@),
            link_rel: match self.link_rel {
                Some(rel) => Some(rel@),
                None => None,
            },
        }
    }
}

impl SanitizerPolicyView {
    /// The sanitiser can work with the policy. It removes scripts and style sheets with
    /// their content, so neither can be among the tags that are kept; and where it sets the
    /// `rel` attribute of links itself, that attribute cannot be let through on them.
    pub open spec fn is_sound(self) -> bool {
        &&& forall|i: int|
            0 <= i < self.tags.len() ==> (#[trigger] self.tags[i]) != "script"@ && self.tags[i]
                != "style"@
        &&& forall|i: int|
            0 <= i < self.tag_attributes.len() ==> (#[trigger] self.tag_attributes[i]).0
                != "script"@ && self.tag_attributes[i].0 != "style"@
        &&& self.link_rel is Some ==> forall|i: int, j: int|
            0 <= i < self.tag_attributes.len() && 0 <= j < self.tag_attributes[i].1.len()
                && self.tag_attributes[i].0 == "a"@ ==> (#[trigger] self.tag_attributes[i].1[j])
                != "rel"@
    }
}

/// What `ammonia::Builder::clean` returns for an HTML fragment, on a builder that keeps
/// what the policy names besides what it keeps by default: the fragment without whatever is
/// not let through.
pub uninterp spec fn sanitized(content: Seq<char>, policy: SanitizerPolicyView) -> Seq<char>;

/// `ammonia::Builder::default`, then `add_tags`, `add_tag_attributes` for each tag,
/// `url_schemes` and `link_rel` as the policy says, then `clean` on the fragment. The
/// builder refuses to work with a policy that is not sound.
#[verifier::external_body]
fn clean(content: &str, policy: &SanitizerPolicy) -> (out: String)
    requires
        policy@.is_sound(),
    ensures
        out@ == sanitized(content@, policy@),
{
    let mut builder = Builder::default();
    builder.add_tags(policy.tags.iter());
    for entry in policy.tag_attributes.iter() {
        builder.add_tag_attributes(entry.tag, entry.attributes.iter());
    }
    builder.url_schemes(policy.url_schemes.iter().copied().collect());
    builder.link_rel(policy.link_rel);
    builder.clean(content).to_string()
}

/// What pastes may hold beyond what the sanitiser lets through by itself: tables, code,
/// quotations, rules, deletions, super- and subscripts, the boxes of task lists and what
/// footnotes are made of; links to the web and to mail only, each marked so that the page
/// it leads to learns nothing of this one.
pub open spec fn paste_policy() -> SanitizerPolicyView {
    SanitizerPolicyView {
        tags: texts(
            seq![
                "table",
                "thead",
                "tbody",
                "tr",
                "th",
                "td",
                "pre",
                "code",
                "blockquote",
                "hr",
                "del",
                "sup",
                "sub",
                "input",
                "section",
                "ol",
                "li",
            ],
        ),
        tag_attributes: seq![
            ("a"@, texts(seq!["href", "title", "id", "class"])),
            ("img"@, texts(seq!["src", "alt", "title"])),
            ("code"@, texts(seq!["class"])),
            ("input"@, texts(seq!["type", "checked", "disabled"])),
            ("li"@, texts(seq!["id"])),
            ("section"@, texts(seq!["class"])),
            ("sup"@, texts(seq!["class", "id"])),
        ],
        url_schemes: texts(seq!["http", "https", "mailto"]),
        link_rel: Some("noopener noreferrer"@),
    }
}

/// The sanitiser can work with the policy for pastes.
pub proof fn lemma_paste_policy_is_sound()
    ensures
        paste_policy().is_sound(),
{
    reveal_strlit("script");
    reveal_strlit("style");
    reveal_strlit("rel");
    reveal_strlit("table");
    reveal_strlit("thead");
    reveal_strlit("tbody");
    reveal_strlit("tr");
    reveal_strlit("th");
    reveal_strlit("td");
    reveal_strlit("pre");
    reveal_strlit("code");
    reveal_strlit("blockquote");
    reveal_strlit("hr");
    reveal_strlit("del");
    reveal_strlit("sup");
    reveal_strlit("sub");
    reveal_strlit("input");
    reveal_strlit("section");
    reveal_strlit("ol");
    reveal_strlit("li");
    reveal_strlit("a");
    reveal_strlit("img");
    reveal_strlit("href");
    reveal_strlit("title");
    reveal_strlit("id");
    reveal_strlit("class");
    let p = paste_policy();
    assert forall|i: int| 0 <= i < p.tags.len() implies (#[trigger] p.tags[i]) != "script"@
        && p.tags[i] != "style"@ by {
        assert(p.tags[i].len() != 6);
        assert(p.tags[i].len() == 5 ==> p.tags[i][0] != 's');
    }
    assert forall|i: int| 0 <= i < p.tag_attributes.len() implies (
    #[trigger] p.tag_attributes[i]).0 != "script"@ && p.tag_attributes[i].0 != "style"@ by {
        assert(p.tag_attributes[i].0.len() != 6);
        assert(p.tag_attributes[i].0.len() == 5 ==> p.tag_attributes[i].0[0] != 's');
    }
    assert forall|i: int, j: int|
        0 <= i < p.tag_attributes.len() && 0 <= j < p.tag_attributes[i].1.len()
            && p.tag_attributes[i].0 == "a"@ implies (#[trigger] p.tag_attributes[i].1[j])
        != "rel"@ by {
        assert(i != 0 ==> p.tag_attributes[i].0.len() != 1);
        assert(p.tag_attributes[0].1[j].len() != 3);
    }
}

/// The policy that pastes are sanitised with.
pub fn paste_sanitizer_policy() -> (p: SanitizerPolicy)
    ensures
        p@ == paste_policy(),
        p@.is_sound(),
{
    let tags: Vec<&'static str> = vec![
        "table",
        "thead",
        "tbody",
        "tr",
        "th",
        "td",
        "pre",
        "code",
        "blockquote",
        "hr",
        "del",
        "sup",
        "sub",
        "input",
        "section",
        "ol",
        "li",
    ];
    let tag_attributes: Vec<TagAttributes> = vec![
        TagAttributes { tag: "a", attributes: vec!["href", "title", "id", "class"] },
        TagAttributes { tag: "img", attributes: vec!["src", "alt", "title"] },
        TagAttributes { tag: "code", attributes: vec!["class"] },
        TagAttributes { tag: "input", attributes: vec!["type", "checked", "disabled"] },
        TagAttributes { tag: "li", attributes: vec!["id"] },
        TagAttributes { tag: "section", attributes: vec!["class"] },
        TagAttributes { tag: "sup", attributes: vec!["class", "id"] },
    ];
    let url_schemes: Vec<&'static str> = vec!["http", "https", "mailto"];
    let p = SanitizerPolicy {
        tags,
        tag_attributes,
        url_schemes,
        link_rel: Some("noopener noreferrer"),
    };
    proof {
        let want = paste_policy();
        assert(p@.tags =~= want.tags);
        assert(p@.url_schemes =~= want.url_schemes);
        assert(p@.tag_attributes.len() == want.tag_attributes.len());
        assert forall|i: int| 0 <= i < 7 implies p@.tag_attributes[i] == want.tag_attributes[i] by {
            assert(p@.tag_attributes[i].1 =~= want.tag_attributes[i].1);
        }
        assert(p@.tag_attributes =~= want.tag_attributes);
        lemma_paste_policy_is_sound();
    }
    p
}

/// A fragment of HTML made safe for display in a page.
pub fn sanitize_html(content: &str) -> (out: String)
    ensures
        out@ == sanitized(content@, paste_policy()),
{
    let policy = paste_sanitizer_policy();
    clean(content, &policy)
}

/// `s` without the line breaks that it begins with.
pub open spec fn without_leading_breaks(s: Seq<char>) -> Seq<char>
    decreases s.len(),
{
    if s.len() > 0 && (s.first() == '\r' || s.first() == '\n') {
        without_leading_breaks(s.drop_first())
    } else {
        s
    }
}

/// What follows the line of three dashes that opens a front matter, for a text that begins
/// with such a line.
pub open spec fn frontmatter_body(content: Seq<char>) -> Option<Seq<char>> {
    if "---\n"@.is_prefix_of(content) {
        Some(content.skip(4))
    } else if "---\r\n"@.is_prefix_of(content) {
        Some(content.skip(5))
    } else {
        None
    }
}

/// The front matter of a text and the text that follows it. A front matter stands at the
/// very beginning, between a line of three dashes and the first later line that begins with
/// three dashes; these must be followed by a line break or by the end of the text, and the
/// front matter must hold more than white space. The front matter is given without the
/// white space around it, the rest without the line breaks that it begins with. A text
/// without a front matter is itself the rest.
pub open spec fn split_frontmatter(content: Seq<char>) -> (Option<Seq<char>>, Seq<char>) {
    match frontmatter_body(content) {
        None => (None, content),
        Some(body) => match first_index(body, "\n---"@) {
            None => (None, content),
            Some(p) => {
                let rest = body.skip(p + 4);
                let frontmatter = trimmed(body.take(p));
                if (rest.len() == 0 || rest[0] == '\n' || rest[0] == '\r') && frontmatter.len()
                    > 0 {
                    (Some(frontmatter), without_leading_breaks(rest))
                } else {
                    (None, content)
                }
            },
        },
    }
}

/// Parts a text into its front matter, if it has one, and the rest.
pub fn extract_frontmatter(content: &str) -> (r: (Option<String>, &str))
    ensures
        r.0 is Some == split_frontmatter(content@).0 is Some,
        r.0 matches Some(frontmatter) ==> Some(frontmatter@) == split_frontmatter(content@).0,
        r.1@ == split_frontmatter(content@).1,
{
    let chars = chars_of(content);
    let all = chars.as_slice();
    let open_lf = chars_of("---\n");
    let open_crlf = chars_of("---\r\n");
    let close = chars_of("\n---");
    proof {
        reveal_strlit("---\n");
        reveal_strlit("---\r\n");
        reveal_strlit("\n---");
    }
    let start: usize = if starts_with(all, open_lf.as_slice()) {
        4
    } else if starts_with(all, open_crlf.as_slice()) {
        5
    } else {
        return (None, content);
    };
    let body = skip(all, start);
    match find(body, close.as_slice()) {
        None => (None, content),
        Some(p) => {
            assert(close@.len() == 4);
            assert(p + 4 <= body.len());
            let rest = skip(body, p + 4);
            if rest.len() == 0 || rest[0] == '\n' || rest[0] == '\r' {
                let frontmatter = trim(take(body, p));
                if frontmatter.len() > 0 {
                    let mut k: usize = 0;
                    assert(rest@.skip(0) =~= rest@);
                    assert(rest@ =~= chars@.skip(start + p + 4));
                    while k < rest.len() && (rest[k] == '\r' || rest[k] == '\n')
                        invariant
                            k <= rest.len(),
                            start + p + 4 + rest.len() == chars.len(),
                            rest@ == chars@.skip(start + p + 4),
                            content@ == chars@,
                            without_leading_breaks(rest@) == without_leading_breaks(
                                rest@.skip(k as int),
                            ),
                        decreases rest.len() - k,
                    {
                        assert(rest@.skip(k as int).drop_first() =~= rest@.skip(k + 1));
                        k += 1;
                    }
                    let from: usize = start + p + 4 + k;
                    let remaining = content.substring_char(from, chars.len());
                    assert(remaining@ =~= rest@.skip(k as int));
                    return (Some(string_of(frontmatter)), remaining);
                }
            }
            (None, content)
        },
    }
}

/// The markdown extensions and the way of rendering that pastes are shown with.
#[derive(Debug)]
pub struct MarkdownOptions {
    pub strikethrough: bool,
    pub table: bool,
    pub autolink: bool,
    pub tasklist: bool,
    pub superscript: bool,
    pub footnotes: bool,
    pub description_lists: bool,
    pub tagfilter: bool,
    /// The prefix of the ids that headers get; no ids where there is none.
    pub header_ids: Option<String>,
    pub multiline_block_quotes: bool,
    pub underline: bool,
    pub spoiler: bool,
    pub greentext: bool,
    /// Whether raw HTML in the markdown is let through.
    pub unsafe_html: bool,
    /// Whether the language of a code block is written as on GitHub.
    pub github_pre_lang: bool,
}

/// The model of [`MarkdownOptions`].
pub struct MarkdownOptionsView {
    pub strikethrough: bool,
    pub table: bool,
    pub autolink: bool,
    pub tasklist: bool,
    pub superscript: bool,
    pub footnotes: bool,
    pub description_lists: bool,
    pub tagfilter: bool,
    pub header_ids: Option<Seq<char>>,
    pub multiline_block_quotes: bool,
    pub underline: bool,
    pub spoiler: bool,
    pub greentext: bool,
    pub unsafe_html: bool,
    pub github_pre_lang: bool,
}

impl View for MarkdownOptions {
    type V = MarkdownOptionsView;

    open spec fn view(&self) -> MarkdownOptionsView {
        MarkdownOptionsView {
            strikethrough: self.strikethrough,
            table: self.table,
            autolink: self.autolink,
            tasklist: self.tasklist,
            superscript: self.superscript,
            footnotes: self.footnotes,
            description_lists: self.description_lists,
            tagfilter: self.tagfilter,
            header_ids: match self.header_ids {
                Some(prefix) => Some(prefix@),
                None => None,
            },
            multiline_block_quotes: self.multiline_block_quotes,
            underline: self.underline,
            spoiler: self.spoiler,
            greentext: self.greentext,
            unsafe_html: self.unsafe_html,
            github_pre_lang: self.github_pre_lang,
        }
    }
}

/// The options that pastes are rendered with: the extensions of GitHub and some more,
/// header ids without a prefix, and no raw HTML.
pub open spec fn paste_markdown_options() -> MarkdownOptionsView {
    MarkdownOptionsView {
        strikethrough: true,
        table: true,
        autolink: true,
        tasklist: true,
        superscript: true,
        footnotes: true,
        description_lists: true,
        tagfilter: true,
        header_ids: Some(Seq::empty()),
        multiline_block_quotes: true,
        underline: true,
        spoiler: true,
        greentext: true,
        unsafe_html: false,
        github_pre_lang: true,
    }
}

/// The options that pastes are rendered with.
pub fn paste_markdown_settings() -> (o: MarkdownOptions)
    ensures
        o@ == paste_markdown_options(),
{
    MarkdownOptions {
        strikethrough: true,
        table: true,
        autolink: true,
        tasklist: true,
        superscript: true,
        footnotes: true,
        description_lists: true,
        tagfilter: true,
        header_ids: Some(String::new()),
        multiline_block_quotes: true,
        underline: true,
        spoiler: true,
        greentext: true,
        unsafe_html: false,
        github_pre_lang: true,
    }
}

/// What `comrak::markdown_to_html` returns for a markdown text under the given options,
/// all other options being the defaults of the renderer: the text as HTML.
pub uninterp spec fn markdown_html(md: Seq<char>, options: MarkdownOptionsView) -> Seq<char>;

/// `comrak::markdown_to_html` on a markdown text, with the given options set and all others
/// left at their defaults.
#[verifier::external_body]
fn markdown_to_html(md: &str, o: &MarkdownOptions) -> (html: String)
    ensures
        html@ == markdown_html(md@, o@),
{
    let extension = ExtensionOptions {
        strikethrough: o.strikethrough, table: o.table, autolink: o.autolink,
        tasklist: o.tasklist, superscript: o.superscript, footnotes: o.footnotes,
        description_lists: o.description_lists, tagfilter: o.tagfilter,
        header_ids: o.header_ids.clone(), multiline_block_quotes: o.multiline_block_quotes,
        underline: o.underline, spoiler: o.spoiler, greentext: o.greentext,
        ..ExtensionOptions::default()
    };
    let render = RenderOptions {
        unsafe_: o.unsafe_html, github_pre_lang: o.github_pre_lang, ..RenderOptions::default()
    };
    comrak::markdown_to_html(md, &Options { extension, parse: ParseOptions::default(), render })
}

/// The HTML that a front matter is shown as: its text in a block of YAML code.
pub open spec fn frontmatter_html(frontmatter: Option<Seq<char>>) -> Seq<char> {
    match frontmatter {
        Some(f) => "<pre><code class=\"language-yaml\">"@ + escaped_text(f)
            + "</code></pre>\n"@,
        None => Seq::empty(),
    }
}

/// A markdown text as the HTML that is shown for it: the front matter as a block of code,
/// the rest rendered, and all of it sanitised.
pub open spec fn rendered_markdown(content: Seq<char>) -> Seq<char> {
    sanitized(
        frontmatter_html(split_frontmatter(content).0) + markdown_html(
            split_frontmatter(content).1,
            paste_markdown_options(),
        ),
        paste_policy(),
    )
}

/// Renders a markdown text to HTML that is safe for display in a page.
pub fn render_markdown(content: &str) -> (out: String)
    ensures
        out@ == rendered_markdown(content@),
{
    let options = paste_markdown_settings();
    let (frontmatter, remaining_content) = extract_frontmatter(content);
    let mut html: Vec<char> = Vec::new();
    match &frontmatter {
        Some(fm) => {
            push_str(&mut html, "<pre><code class=\"language-yaml\">");
            push_str(&mut html, escape_text(fm.as_str()).as_str());
            push_str(&mut html, "</code></pre>\n");
        },
        None => {},
    }
    assert(html@ =~= frontmatter_html(split_frontmatter(content@).0));
    push_str(&mut html, markdown_to_html(remaining_content, &options).as_str());
    let html = string_of(html.as_slice());
    sanitize_html(html.as_str())
}

} // verus!
