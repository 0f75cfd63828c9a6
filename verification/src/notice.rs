//! Rendering of the license notice.
//!
//! A notice lists every license text that the dependencies are distributed
//! under. Each license is rendered as a block: its name, a "Used by" list with
//! one line per crate (name, version and a link), the full license text and a
//! separator line. The notice is the blocks one after another, in order.

use vstd::prelude::*;
use vstd::seq_lib::lemma_flatten_concat;

verus! {

/// A crate that uses a license.
#[derive(Debug, Clone, PartialEq, Eq)]
pub struct Package {
    /// The crate's name.
    pub name: String,
    /// The crate's version, as written in its manifest.
    pub version: String,
    /// The crate's `repository` field, if it has one.
    pub repository: Option<String>,
}

/// A license text together with the crates that use it.
#[derive(Debug, Clone, PartialEq, Eq)]
pub struct License {
    /// The license's full name.
    pub name: String,
    /// The full license text.
    pub text: String,
    /// The crates this license text applies to.
    pub used_by: Vec<Package>,
}

/// Every license text of the dependency graph, in the order they are rendered.
#[derive(Debug, Clone, PartialEq, Eq)]
pub struct LicenseList {
    /// The licenses, one block of the notice each.
    pub licenses: Vec<License>,
}

/// The model of a [`Package`].
pub struct PackageView {
    pub name: Seq<char>,
    pub version: Seq<char>,
    pub repository: Option<Seq<char>>,
}

/// The model of a [`License`].
pub struct LicenseView {
    pub name: Seq<char>,
    pub text: Seq<char>,
    pub used_by: Seq<PackageView>,
}

impl View for Package {
    type V = PackageView;

    open spec fn view(&self) -> PackageView {
        PackageView {
            name: self.name@,
            version: self.version@,
            repository: self.repository.deep_view(),
        }
    }
}

impl View for License {
    type V = LicenseView;

    open spec fn view(&self) -> LicenseView {
        LicenseView {
            name: self.name@,
            text: self.text@,
            used_by: self.used_by@.map_values(|p: Package| p@),
        }
    }
}

impl View for LicenseList {
    type V = Seq<LicenseView>;

    open spec fn view(&self) -> Seq<LicenseView> {
        self.licenses@.map_values(|l: License| l@)
    }
}

/// The link shown in parentheses after a crate in a "Used by" list: the
/// repository when there is one, the crates.io page of the crate otherwise,
/// with a space on each side.
pub open spec fn spec_crate_link(name: Seq<char>, repository: Option<Seq<char>>) -> Seq<char> {
    match repository {
        Some(repo) => " "@ + repo + " "@,
        None => " https://crates.io/crates/"@ + name + " "@,
    }
}

/// The line of the "Used by" list for one crate.
pub open spec fn spec_package_line(p: PackageView) -> Seq<char> {
    "  - "@ + p.name + " "@ + p.version + " ("@ + spec_crate_link(p.name, p.repository) + ")\n"@
}

/// The "Used by" list: one line per crate, in order.
pub open spec fn spec_used_by_lines(used_by: Seq<PackageView>) -> Seq<char> {
    used_by.map_values(|p: PackageView| spec_package_line(p)).flatten()
}

/// The line of dashes that closes each license block, with the line break
/// before and after it.
pub open spec fn spec_separator() -> Seq<char> {
    "\n--------------------------------------------------------------------------\n"@
}

/// The block of the notice for one license.
pub open spec fn spec_license_block(l: LicenseView) -> Seq<char> {
    l.name + "\n Used by:\n"@ + spec_used_by_lines(l.used_by) + "\n"@ + l.text + spec_separator()
}

/// The whole notice: the block of each license, in order.
pub open spec fn spec_notice(licenses: Seq<LicenseView>) -> Seq<char> {
    licenses.map_values(|l: LicenseView| spec_license_block(l)).flatten()
}

/// Renders the parenthesised link shown after each crate in the "Used by" list.
///
/// Prefers the crate's `repository`, falling back to its crates.io page. The
/// surrounding spaces are part of the link.
pub fn crate_link(name: &str, repository: Option<&str>) -> (link: String)
    ensures
        link@ == spec_crate_link(name@, repository.deep_view()),
{
    let mut link = String::new();
    match repository {
        Some(repo) => {
            link.append(" ");
            link.append(repo);
            link.append(" ");
        },
        None => {
            link.append(" https://crates.io/crates/");
            link.append(name);
            link.append(" ");
        },
    }
    link
}

/// Appends the "Used by" line of one crate.
fn push_package_line(output: &mut String, package: &Package)
    ensures
        final(output)@ == old(output)@ + spec_package_line(package@),
{
    let repository: Option<&str> = match &package.repository {
        Some(repo) => Some(repo.as_str()),
        None => None,
    };
    let link = crate_link(package.name.as_str(), repository);
    output.append("  - ");
    output.append(package.name.as_str());
    output.append(" ");
    output.append(package.version.as_str());
    output.append(" (");
    output.append(link.as_str());
    output.append(")\n");
}

/// Appends the block of one license.
fn push_license_block(output: &mut String, license: &License)
    ensures
        final(output)@ == old(output)@ + spec_license_block(license@),
{
    let ghost used_by = license@.used_by;
    let ghost lines = used_by.map_values(|p: PackageView| spec_package_line(p));
    output.append(license.name.as_str());
    output.append("\n Used by:\n");
    let ghost head = output@;
    let n = license.used_by.len();
    let mut i: usize = 0;
    while i < n
        invariant
            i <= n,
            n == license.used_by.len(),
            used_by == license@.used_by,
            lines == used_by.map_values(|p: PackageView| spec_package_line(p)),
            output@ == head + lines.take(i as int).flatten(),
        decreases n - i,
    {
        proof {
            assert(lines.take(i as int + 1) =~= lines.take(i as int).push(lines[i as int]));
            lines.take(i as int).lemma_flatten_push(lines[i as int]);
        }
        push_package_line(output, &license.used_by[i]);
        i = i + 1;
    }
    proof {
        assert(lines.take(n as int) =~= lines);
    }
    output.append("\n");
    output.append(license.text.as_str());
    output.append("\n--------------------------------------------------------------------------\n");
}

/// Renders the notice: for each license, its name, the "Used by" list of the
/// crates that use it, its text and a separator line.
pub fn render_license_list(license_list: &LicenseList) -> (output: String)
    ensures
        output@ == spec_notice(license_list@),
{
    let ghost licenses = license_list@;
    let ghost blocks = licenses.map_values(|l: LicenseView| spec_license_block(l));
    let mut output = String::new();
    let n = license_list.licenses.len();
    let mut i: usize = 0;
    while i < n
        invariant
            i <= n,
            n == license_list.licenses.len(),
            licenses == license_list@,
            blocks == licenses.map_values(|l: LicenseView| spec_license_block(l)),
            output@ == blocks.take(i as int).flatten(),
        decreases n - i,
    {
        proof {
            assert(blocks.take(i as int + 1) =~= blocks.take(i as int).push(blocks[i as int]));
            blocks.take(i as int).lemma_flatten_push(blocks[i as int]);
        }
        push_license_block(&mut output, &license_list.licenses[i]);
        i = i + 1;
    }
    proof {
        assert(blocks.take(n as int) =~= blocks);
    }
    output
}

/// Splitting a concatenation of parts at part `i`: the whole is the parts
/// before `i`, then part `i` itself, then the parts after it.
proof fn lemma_flatten_around(parts: Seq<Seq<char>>, i: int)
    requires
        0 <= i < parts.len(),
    ensures
        parts.flatten() == parts.take(i).flatten() + parts[i] + parts.skip(i + 1).flatten(),
{
    assert(parts =~= parts.take(i) + (seq![parts[i]] + parts.skip(i + 1)));
    lemma_flatten_concat(parts.take(i), seq![parts[i]] + parts.skip(i + 1));
    lemma_flatten_concat(seq![parts[i]], parts.skip(i + 1));
    seq![parts[i]].lemma_flatten_one_element();
}

/// The notice of two license lists, one after the other, is the notice of the
/// first followed by the notice of the second: each license is rendered on its
/// own, whatever surrounds it.
pub proof fn lemma_notice_concat(first: Seq<LicenseView>, second: Seq<LicenseView>)
    ensures
        spec_notice(first + second) == spec_notice(first) + spec_notice(second),
{
    let f = |l: LicenseView| spec_license_block(l);
    assert((first + second).map_values(f) =~= first.map_values(f) + second.map_values(f));
    lemma_flatten_concat(first.map_values(f), second.map_values(f));
}

/// The block of every license stands in the notice verbatim, after the blocks
/// of the licenses before it and before the blocks of those after it.
pub proof fn lemma_license_block_in_notice(licenses: Seq<LicenseView>, i: int)
    requires
        0 <= i < licenses.len(),
    ensures
        spec_notice(licenses) == spec_notice(licenses.take(i)) + spec_license_block(licenses[i])
            + spec_notice(licenses.skip(i + 1)),
{
    let f = |l: LicenseView| spec_license_block(l);
    let blocks = licenses.map_values(f);
    lemma_flatten_around(blocks, i);
    assert(blocks.take(i) =~= licenses.take(i).map_values(f));
    assert(blocks.skip(i + 1) =~= licenses.skip(i + 1).map_values(f));
}

/// The line of every crate that uses a license stands in that license's
/// "Used by" list, after the lines of the crates before it and before the
/// lines of those after it.
pub proof fn lemma_package_line_in_used_by(used_by: Seq<PackageView>, j: int)
    requires
        0 <= j < used_by.len(),
    ensures
        spec_used_by_lines(used_by) == spec_used_by_lines(used_by.take(j)) + spec_package_line(
            used_by[j],
        ) + spec_used_by_lines(used_by.skip(j + 1)),
{
    let f = |p: PackageView| spec_package_line(p);
    let lines = used_by.map_values(f);
    lemma_flatten_around(lines, j);
    assert(lines.take(j) =~= used_by.take(j).map_values(f));
    assert(lines.skip(j + 1) =~= used_by.skip(j + 1).map_values(f));
}

/// An empty license list renders as an empty notice.
pub proof fn lemma_empty_notice()
    ensures
        spec_notice(Seq::<LicenseView>::empty()) == Seq::<char>::empty(),
{
    assert(Seq::<LicenseView>::empty().map_values(|l: LicenseView| spec_license_block(l))
        =~= Seq::<Seq<char>>::empty());
}

/// A crate link starts and ends with a space, whatever the crate and its
/// repository.
pub proof fn lemma_crate_link_padded(name: Seq<char>, repository: Option<Seq<char>>)
    ensures
        spec_crate_link(name, repository).len() >= 2,
        spec_crate_link(name, repository)[0] == ' ',
        spec_crate_link(name, repository).last() == ' ',
{
    reveal_strlit(" ");
    reveal_strlit(" https://crates.io/crates/");
}

/// When a crate has a repository, its link is that repository between two
/// spaces, and does not depend on the crate's name.
pub proof fn lemma_crate_link_prefers_repository(name: Seq<char>, other_name: Seq<char>, repo: Seq<char>)
    ensures
        spec_crate_link(name, Some(repo)) == spec_crate_link(other_name, Some(repo)),
        spec_crate_link(name, Some(repo)).len() == repo.len() + 2,
        spec_crate_link(name, Some(repo)).subrange(1, repo.len() + 1int) == repo,
{
    reveal_strlit(" ");
    assert(spec_crate_link(name, Some(repo)).subrange(1, repo.len() + 1int) =~= repo);
}

/// Without a repository, a crate's link is its crates.io page: the page's
/// address prefix, then the crate's name, then a space.
pub proof fn lemma_crate_link_falls_back_to_crates_io(name: Seq<char>)
    ensures
        " https://crates.io/crates/"@.is_prefix_of(spec_crate_link(name, None)),
        (name + " "@).is_suffix_of(spec_crate_link(name, None)),
        spec_crate_link(name, None).len() == " https://crates.io/crates/"@.len() + name.len() + 1,
{
    reveal_strlit(" ");
    let link = spec_crate_link(name, None);
    assert(" https://crates.io/crates/"@ =~= link.subrange(0, " https://crates.io/crates/"@.len() as int));
    assert(name + " "@ =~= link.subrange(link.len() - (name.len() + 1), link.len() as int));
}

/// The line of a crate starts with its name and then its version, and ends
/// with its link in parentheses.
pub proof fn lemma_package_line_parts(p: PackageView)
    ensures
        ("  - "@ + p.name + " "@ + p.version + " ("@).is_prefix_of(spec_package_line(p)),
        (spec_crate_link(p.name, p.repository) + ")\n"@).is_suffix_of(spec_package_line(p)),
{
    let line = spec_package_line(p);
    let head = "  - "@ + p.name + " "@ + p.version + " ("@;
    let tail = spec_crate_link(p.name, p.repository) + ")\n"@;
    assert(line =~= head + tail);
    assert(head =~= line.subrange(0, head.len() as int));
    assert(tail =~= line.subrange(line.len() - tail.len(), line.len() as int));
}

/// The block of a license starts with its name and the "Used by" heading,
/// followed by the lines of its crates, and ends with its text and the
/// separator line.
pub proof fn lemma_license_block_parts(l: LicenseView)
    ensures
        (l.name + "\n Used by:\n"@ + spec_used_by_lines(l.used_by)).is_prefix_of(spec_license_block(l)),
        ("\n"@ + l.text + spec_separator()).is_suffix_of(spec_license_block(l)),
{
    let block = spec_license_block(l);
    let head = l.name + "\n Used by:\n"@ + spec_used_by_lines(l.used_by);
    let tail = "\n"@ + l.text + spec_separator();
    assert(block =~= head + tail);
    assert(head =~= block.subrange(0, head.len() as int));
    assert(tail =~= block.subrange(block.len() - tail.len(), block.len() as int));
}

} // verus!
