//! The embedded manifest of a dependency archive: line-oriented
//! `Key: Value` pairs, colon-space separated. Lines without the separator
//! carry no attribute and are skipped.

use vstd::prelude::*;

verus! {

/// Represents the common fields in an archive manifest.
pub enum CommonFields {
    ManifestVersion,
    PreMainClass,
    MainClass,
    LombokVersion,
    AgentClass,
    CanRedefineClasses,
}

impl CommonFields {
    /// The attribute key this field stands for.
    pub open spec fn spec_str(&self) -> Seq<char> {
        match self {
            CommonFields::ManifestVersion => "Manifest-Version"@,
            CommonFields::PreMainClass => "Premain-Class"@,
            CommonFields::MainClass => "Main-Class"@,
            CommonFields::LombokVersion => "Lombok-Version"@,
            CommonFields::AgentClass => "Agent-Class"@,
            CommonFields::CanRedefineClasses => "Can-Redefine-Classes"@,
        }
    }

    /// The attribute key this field stands for.
    pub fn as_str(&self) -> (r: &'static str)
        ensures
            r@ == self.spec_str(),
    {
        match self {
            CommonFields::ManifestVersion => "Manifest-Version",
            CommonFields::PreMainClass => "Premain-Class",
            CommonFields::MainClass => "Main-Class",
            CommonFields::LombokVersion => "Lombok-Version",
            CommonFields::AgentClass => "Agent-Class",
            CommonFields::CanRedefineClasses => "Can-Redefine-Classes",
        }
    }
}

/// One `Key: Value` pair of a manifest.
pub struct ManifestAttribute {
    pub key: String,
    pub value: String,
}

/// A line without its trailing carriage return, if it has one.
pub open spec fn strip_cr(line: Seq<char>) -> Seq<char> {
    if line.len() > 0 && line.last() == '\r' {
        line.drop_last()
    } else {
        line
    }
}

/// The position of the first newline in `s`, or its length when there is
/// none.
pub open spec fn first_newline(s: Seq<char>) -> nat
    decreases s.len(),
{
    if s.len() == 0 {
        0
    } else if s.first() == '\n' {
        0
    } else {
        (1 + first_newline(s.drop_first())) as nat
    }
}

proof fn lemma_first_newline(s: Seq<char>)
    ensures
        first_newline(s) <= s.len(),
        forall|j: int| 0 <= j < first_newline(s) ==> s[j] != '\n',
        first_newline(s) < s.len() ==> s[first_newline(s) as int] == '\n',
    decreases s.len(),
{
    if s.len() > 0 && s.first() != '\n' {
        lemma_first_newline(s.drop_first());
        assert forall|j: int| 0 <= j < first_newline(s) implies s[j] != '\n' by {
            if j > 0 {
                assert(s.drop_first()[j - 1] == s[j]);
            }
        }
        if first_newline(s) < s.len() {
            assert(s.drop_first()[first_newline(s.drop_first()) as int] == s[first_newline(
                s,
            ) as int]);
        }
    }
}

/// The lines of `s`: split at newlines, each line without its trailing
/// carriage return, and nothing after a final newline.
pub open spec fn split_lines(s: Seq<char>) -> Seq<Seq<char>>
    decreases s.len(),
{
    if s.len() == 0 {
        Seq::empty()
    } else {
        let i = first_newline(s);
        if i >= s.len() {
            seq![strip_cr(s)]
        } else {
            seq![strip_cr(s.subrange(0, i as int))] + split_lines(
                s.subrange(i + 1 as int, s.len() as int),
            )
        }
    }
}

/// The position of the first `: ` separator in a line, or the line's
/// length when there is none.
pub open spec fn separator_index(line: Seq<char>) -> nat
    decreases line.len(),
{
    if line.len() < 2 {
        line.len()
    } else if line.first() == ':' && line[1] == ' ' {
        0
    } else {
        (1 + separator_index(line.drop_first())) as nat
    }
}

proof fn lemma_separator_index(line: Seq<char>)
    ensures
        separator_index(line) <= line.len(),
        forall|j: int|
            0 <= j < separator_index(line) && j + 1 < line.len() ==> !(#[trigger] line[j] == ':'
                && line[j + 1] == ' '),
        separator_index(line) + 2 <= line.len() ==> line[separator_index(line) as int] == ':'
            && line[separator_index(line) + 1 as int] == ' ',
    decreases line.len(),
{
    if line.len() >= 2 && !(line.first() == ':' && line[1] == ' ') {
        lemma_separator_index(line.drop_first());
        let d = line.drop_first();
        let sd = separator_index(d);
        assert forall|j: int|
            0 <= j < separator_index(line) && j + 1 < line.len() implies !(#[trigger] line[j]
                == ':' && line[j + 1] == ' ') by {
            if j > 0 {
                assert(d[j - 1] == line[j]);
                assert(d[j] == line[j + 1]);
            }
        }
        if separator_index(line) + 2 <= line.len() {
            assert(d[sd as int] == line[sd + 1 as int]);
            assert(d[sd + 1 as int] == line[sd + 2 as int]);
        }
    }
}

/// The attribute a line carries: the text before the first `: ` as key and
/// the text after it as value, or nothing when the line has no separator.
pub open spec fn line_entry(line: Seq<char>) -> Option<(Seq<char>, Seq<char>)> {
    let i = separator_index(line);
    if i + 2 <= line.len() {
        Some((line.subrange(0, i as int), line.subrange(i + 2 as int, line.len() as int)))
    } else {
        None
    }
}

/// The attributes carried by a sequence of lines, in line order.
pub open spec fn entries_of_lines(lines: Seq<Seq<char>>) -> Seq<(Seq<char>, Seq<char>)>
    decreases lines.len(),
{
    if lines.len() == 0 {
        Seq::empty()
    } else {
        match line_entry(lines.first()) {
            Some(e) => seq![e] + entries_of_lines(lines.drop_first()),
            None => entries_of_lines(lines.drop_first()),
        }
    }
}

/// The attributes of a whole manifest text.
pub open spec fn manifest_entries(s: Seq<char>) -> Seq<(Seq<char>, Seq<char>)> {
    entries_of_lines(split_lines(s))
}

/// A line without its trailing carriage return.
fn strip_cr_exec(line: &str) -> (r: String)
    ensures
        r@ == strip_cr(line@),
{
    proof {
        reveal_strlit("\r");
    }
    if crate::strutil::ends_with_str(line, "\r") {
        let len = line.unicode_len();
        proof {
            assert(line@.subrange(len - 1, len as int) =~= "\r"@);
            assert(line@.subrange(len - 1, len as int)[0] == line@.last());
            assert(line@.subrange(0, len - 1) =~= line@.drop_last());
        }
        line.substring_char(0, len - 1).to_owned()
    } else {
        proof {
            if line@.len() > 0 && line@.last() == '\r' {
                assert(line@.subrange(line@.len() - 1, line@.len() as int) =~= "\r"@);
            }
        }
        line.to_owned()
    }
}

/// The lines of a manifest text.
fn split_lines_exec(s: &str) -> (r: Vec<String>)
    ensures
        r.deep_view() == split_lines(s@),
{
    let len = s.unicode_len();
    let mut out: Vec<String> = Vec::new();
    let mut pos: usize = 0;
    proof {
        assert(s@.subrange(0, len as int) =~= s@);
    }
    while pos < len
        invariant
            len == s@.len(),
            0 <= pos <= len,
            split_lines(s@) == out.deep_view() + split_lines(s@.subrange(pos as int, len as int)),
        decreases len - pos,
    {
        let rem = s.substring_char(pos, len);
        let ghost rem_view = s@.subrange(pos as int, len as int);
        proof {
            lemma_first_newline(rem_view);
        }
        match crate::strutil::find_first_char(rem, '\n') {
            Some(i) => {
                proof {
                    assert(first_newline(rem_view) == i) by {
                        if first_newline(rem_view) < i {
                            assert(rem_view[first_newline(rem_view) as int] == '\n');
                        }
                    }
                }
                let line = rem.substring_char(0, i);
                let cleaned = strip_cr_exec(line);
                let ghost out_prev = out.deep_view();
                out.push(cleaned);
                proof {
                    assert(out.deep_view() =~~= out_prev.push(strip_cr(rem_view.subrange(
                        0,
                        i as int,
                    ))));
                    assert(rem_view.subrange(i + 1, rem_view.len() as int) =~= s@.subrange(
                        pos + i + 1,
                        len as int,
                    ));
                    assert(out.deep_view() + split_lines(s@.subrange(pos + i + 1, len as int))
                        =~~= out_prev + split_lines(rem_view));
                }
                pos = pos + i + 1;
            },
            None => {
                proof {
                    assert(first_newline(rem_view) == rem_view.len());
                    assert(split_lines(rem_view) =~~= seq![strip_cr(rem_view)]);
                }
                let cleaned = strip_cr_exec(rem);
                let ghost out_prev = out.deep_view();
                out.push(cleaned);
                proof {
                    assert(s@.subrange(len as int, len as int) =~= Seq::<char>::empty());
                    assert(out.deep_view() + split_lines(s@.subrange(len as int, len as int))
                        =~~= out_prev + split_lines(rem_view));
                }
                pos = len;
            },
        }
    }
    proof {
        assert(s@.subrange(pos as int, len as int) =~= Seq::<char>::empty());
        assert(out.deep_view() + split_lines(s@.subrange(pos as int, len as int)) =~~=
            out.deep_view());
    }
    out
}

/// Parses a manifest text into its attributes, in line order: each line
/// holding a `: ` separator contributes the text before the first one as
/// key and the text after it as value; other lines are skipped.
pub fn parse(content: &str) -> (r: Vec<ManifestAttribute>)
    ensures
        r@.len() == manifest_entries(content@).len(),
        forall|k: int|
            0 <= k < r@.len() ==> #[trigger] r@[k].key@ == manifest_entries(content@)[k].0
                && r@[k].value@ == manifest_entries(content@)[k].1,
{
    let lines = split_lines_exec(content);
    let n = lines.len();
    let mut out: Vec<ManifestAttribute> = Vec::new();
    let mut i: usize = 0;
    proof {
        assert(lines.deep_view().subrange(0, n as int) =~~= lines.deep_view());
        assert(lines.deep_view().subrange(n as int, n as int) =~~= Seq::<Seq<char>>::empty());
    }
    while i < n
        invariant
            n == lines@.len(),
            0 <= i <= n,
            lines.deep_view() == split_lines(content@),
            manifest_entries(content@) == spec_pairs(out@) + entries_of_lines(
                lines.deep_view().subrange(i as int, n as int),
            ),
        decreases n - i,
    {
        let line = &lines[i];
        let ghost line_view = lines.deep_view()[i as int];
        let ghost tail = lines.deep_view().subrange(i as int, n as int);
        proof {
            lemma_separator_index(line_view);
            assert(tail.first() == line_view);
            assert(tail.drop_first() =~~= lines.deep_view().subrange(i + 1, n as int));
            reveal_strlit(": ");
        }
        let len = line.as_str().unicode_len();
        match crate::strutil::find_substr(line.as_str(), ": ") {
            Some(j) => {
                proof {
                    assert(crate::strutil::matches_at(line_view, ": "@, j as int));
                    assert(line_view.subrange(j as int, j + 2)[0] == line_view[j as int]);
                    assert(line_view.subrange(j as int, j + 2)[1] == line_view[j + 1]);
                    assert(line_view[j as int] == ':' && line_view[j + 1] == ' ');
                    assert(separator_index(line_view) == j) by {
                        let si = separator_index(line_view);
                        if si < j {
                            assert(si + 2 <= line_view.len());
                            assert(line_view.subrange(si as int, si + 2 as int) =~= ": "@);
                            assert(crate::strutil::matches_at(line_view, ": "@, si as int));
                        }
                        if j < si {
                            assert(!(line_view[j as int] == ':' && line_view[j + 1] == ' '));
                        }
                    }
                    assert(line_entry(line_view) == Some(
                        (
                            line_view.subrange(0, j as int),
                            line_view.subrange(j + 2, line_view.len() as int),
                        ),
                    ));
                }
                let key = line.as_str().substring_char(0, j).to_owned();
                let value = line.as_str().substring_char(j + 2, len).to_owned();
                let ghost out_prev = out@;
                out.push(ManifestAttribute { key, value });
                proof {
                    assert(spec_pairs(out@) =~= spec_pairs(out_prev).push(
                        (line_view.subrange(0, j as int), line_view.subrange(
                            j + 2,
                            line_view.len() as int,
                        )),
                    ));
                    assert(spec_pairs(out@) + entries_of_lines(tail.drop_first()) =~=
                        spec_pairs(out_prev) + entries_of_lines(tail));
                }
            },
            None => {
                proof {
                    assert(line_entry(line_view) is None) by {
                        let si = separator_index(line_view);
                        if si + 2 <= line_view.len() {
                            assert(line_view.subrange(si as int, si + 2 as int) =~= ": "@);
                            assert(crate::strutil::matches_at(line_view, ": "@, si as int));
                        }
                    }
                }
            },
        }
        i += 1;
    }
    proof {
        assert(entries_of_lines(lines.deep_view().subrange(n as int, n as int)) =~=
            Seq::<(Seq<char>, Seq<char>)>::empty());
        assert(manifest_entries(content@) =~= spec_pairs(out@));
    }
    out
}

/// The key/value pairs of a list of attributes.
pub open spec fn spec_pairs(attrs: Seq<ManifestAttribute>) -> Seq<(Seq<char>, Seq<char>)> {
    attrs.map_values(|a: ManifestAttribute| (a.key@, a.value@))
}

} // verus!
