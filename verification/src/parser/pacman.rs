//! Readers for what `checkupdates` and `pacman -Qi` print.

use crate::models::package::{Package, PackageRepository, PackageView};
use crate::text::{
    chars_of, has_prefix_at, leading_colons, lines, skip_colons, skip_whitespace, starts_with,
    text_lines, trim_start, words, words_from,
};
use vstd::prelude::*;

verus! {

/// The update that one line announces, in the form
/// `name current_version -> new_version`: its first, second and fourth
/// word. A line of fewer than four words announces none.
pub open spec fn update_of(line: Seq<char>, repository: PackageRepository) -> Option<PackageView> {
    let w = words(line);
    if w.len() >= 4 {
        Some(
            PackageView {
                name: w[0],
                current_version: Some(w[1]),
                new_version: w[3],
                repository,
            },
        )
    } else {
        None
    }
}

/// The updates that `lines` announce, in order.
pub open spec fn updates_in(lines: Seq<Seq<char>>, repository: PackageRepository) -> Seq<
    PackageView,
>
    decreases lines.len(),
{
    if lines.len() == 0 {
        Seq::empty()
    } else {
        let before = updates_in(lines.drop_last(), repository);
        match update_of(lines.last(), repository) {
            Some(p) => before.push(p),
            None => before,
        }
    }
}

/// The updates that a listing announces, one per well-formed line.
pub open spec fn parse_updates(text: Seq<char>, repository: PackageRepository) -> Seq<PackageView> {
    updates_in(lines(text), repository)
}

/// Reads a listing of updates, tagging each with `repository`. Lines that
/// do not have the form `name current_version -> new_version` are skipped.
pub fn parse_update_lines(output: &str, repository: PackageRepository) -> (r: Vec<Package>)
    ensures
        r.deep_view() == parse_updates(output@, repository),
{
    let all = text_lines(output);
    let mut r: Vec<Package> = Vec::new();
    let mut i: usize = 0;
    while i < all.len()
        invariant
            i <= all.len(),
            all.deep_view() == lines(output@),
            r.deep_view() == updates_in(all.deep_view().take(i as int), repository),
        decreases all.len() - i,
    {
        let w = words_from(&all[i], 0);
        proof {
            let seen = all.deep_view().take(i + 1);
            assert(seen.drop_last() =~= all.deep_view().take(i as int));
            assert(all[i as int]@.skip(0) =~= all[i as int]@);
            assert(seen.last() =~= all[i as int]@);
        }
        if w.len() >= 4 {
            let ghost before = r.deep_view();
            let p = Package {
                name: w[0].clone(),
                current_version: Some(w[1].clone()),
                new_version: w[3].clone(),
                repository,
            };
            r.push(p);
            assert(r.deep_view() =~= before.push(p@));
        }
        i += 1;
    }
    assert(all.deep_view().take(all.len() as int) =~= all.deep_view());
    r
}

/// Parses `checkupdates` output into the list of official updates.
///
/// Expected format, line by line: `package_name current_version -> new_version`.
pub fn parse_checkupdates_output(output: &str) -> (r: Vec<Package>)
    ensures
        r.deep_view() == parse_updates(output@, PackageRepository::Official),
{
    parse_update_lines(output, PackageRepository::Official)
}

/// The label of the field that lists a package's dependents.
pub open spec fn required_by_label() -> Seq<char> {
    "Required By"@
}

/// The value that a list of dependents has when there are none.
pub open spec fn no_dependents() -> Seq<char> {
    "None"@
}

/// What one line of a package description says of the dependents: `None`
/// when the line, white space at its start aside, does not start with the
/// label; otherwise the words that follow the label and its colons, where
/// the single word `None` stands for no dependents.
pub open spec fn required_by_field(line: Seq<char>) -> Option<Seq<Seq<char>>> {
    let t = trim_start(line);
    if starts_with(t, required_by_label()) {
        let rest = trim_start(t.skip(required_by_label().len() as int));
        let value = rest.skip(leading_colons(rest) as int);
        let w = words(value);
        if w == seq![no_dependents()] {
            Some(Seq::empty())
        } else {
            Some(w)
        }
    } else {
        None
    }
}

/// The dependents that the first line with the label lists; none when no
/// line has the label.
pub open spec fn first_required_by(lines: Seq<Seq<char>>) -> Seq<Seq<char>>
    decreases lines.len(),
{
    if lines.len() == 0 {
        Seq::empty()
    } else {
        match required_by_field(lines[0]) {
            Some(w) => w,
            None => first_required_by(lines.drop_first()),
        }
    }
}

/// The dependents that a package description names.
pub open spec fn parse_dependents(text: Seq<char>) -> Seq<Seq<char>> {
    first_required_by(lines(text))
}

fn required_by_in_line(line: &Vec<char>, label: &Vec<char>) -> (r: Option<Vec<String>>)
    requires
        label@ == required_by_label(),
    ensures
        match r {
            Some(w) => required_by_field(line@) == Some(w.deep_view()),
            None => required_by_field(line@) is None,
        },
{
    let start = skip_whitespace(line, 0);
    assert(line@.skip(0) =~= line@);
    if !has_prefix_at(line, start, label) {
        return None;
    }
    let after_label = start + label.len();
    let value_start = skip_whitespace(line, after_label);
    let words_start = skip_colons(line, value_start);
    proof {
        let t = trim_start(line@);
        assert(t == line@.skip(start as int));
        assert(t.skip(label@.len() as int) =~= line@.skip(after_label as int));
        let rest = trim_start(t.skip(label@.len() as int));
        assert(rest =~= line@.skip(value_start as int));
        assert(rest.skip(leading_colons(rest) as int) =~= line@.skip(words_start as int));
    }
    let w = words_from(line, words_start);
    let none = "None".to_string();
    if w.len() == 1 && w[0] == none {
        let empty: Vec<String> = Vec::new();
        assert(w.deep_view() =~= seq![no_dependents()]);
        assert(empty.deep_view() =~= Seq::<Seq<char>>::empty());
        Some(empty)
    } else {
        assert(w.deep_view() != seq![no_dependents()]) by {
            if w.deep_view() == seq![no_dependents()] {
                assert(w.deep_view().len() == 1);
                assert(w.deep_view()[0] == no_dependents());
            }
        }
        Some(w)
    }
}

/// Parses `pacman -Qi` output to extract the "Required By" field.
///
/// Expected format:
/// ```text
/// Required By     : pkg1  pkg2  pkg3
/// ```
///
/// Returns the names of the packages that depend on the described one, and
/// no name where the field is `None` or missing.
pub fn parse_required_by(output: &str) -> (r: Vec<String>)
    ensures
        r.deep_view() == parse_dependents(output@),
{
    let all = text_lines(output);
    let label = chars_of("Required By");
    let mut i: usize = 0;
    assert(all.deep_view().skip(0) =~= all.deep_view());
    while i < all.len()
        invariant
            i <= all.len(),
            label@ == required_by_label(),
            all.deep_view() == lines(output@),
            first_required_by(all.deep_view()) == first_required_by(
                all.deep_view().skip(i as int),
            ),
        decreases all.len() - i,
    {
        proof {
            let left = all.deep_view().skip(i as int);
            assert(left[0] =~= all[i as int]@);
            assert(left.drop_first() =~= all.deep_view().skip(i + 1));
        }
        match required_by_in_line(&all[i], &label) {
            Some(w) => {
                return w;
            },
            None => {},
        }
        i += 1;
    }
    let empty: Vec<String> = Vec::new();
    assert(empty.deep_view() =~= Seq::<Seq<char>>::empty());
    empty
}

} // verus!
