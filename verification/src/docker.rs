use vstd::prelude::*;
use vstd::string::StringExecFns;

use crate::error::UnraidError;
use crate::text::lower_of;
use crate::text::lowercase;
use crate::text::pad_right;
use crate::text::padded;
use crate::text::strip_leading_slashes;
use crate::text::strip_slashes;
use crate::text::truncate;
use crate::text::truncated;
use crate::text::dash_line;

verus! {

/// A container's lifecycle state as the server reports it; states the
/// protocol does not name arrive verbatim in `Other`.
#[derive(Debug, Clone, PartialEq, Eq)]
pub enum ContainerState {
    Running,
    Paused,
    Exited,
    Other(String),
}

impl ContainerState {
    /// The word shown in the STATE column; an unrecognised state shows
    /// as received.
    pub open spec fn label_view(self) -> Seq<char> {
        match self {
            ContainerState::Running => "running"@,
            ContainerState::Paused => "paused"@,
            ContainerState::Exited => "exited"@,
            ContainerState::Other(s) => s@,
        }
    }

    /// Renders the word that `label_view` states.
    pub fn label(&self) -> (r: String)
        ensures
            r@ == self.label_view(),
    {
        match self {
            ContainerState::Running => String::from_str("running"),
            ContainerState::Paused => String::from_str("paused"),
            ContainerState::Exited => String::from_str("exited"),
            ContainerState::Other(s) => s.clone(),
        }
    }

    /// Whether this is the running state.
    pub fn is_running(&self) -> (b: bool)
        ensures
            b == (self is Running),
    {
        match self {
            ContainerState::Running => true,
            _ => false,
        }
    }
}

/// One remote container: an opaque identifier, its human-readable aliases in
/// server order, and what the listing shows of it.
#[derive(Debug, Clone)]
pub struct Container {
    pub id: String,
    pub names: Vec<String>,
    pub image: String,
    pub state: ContainerState,
    pub status: String,
    pub ports: Vec<i64>,
}

/// Whether an alias names the target: compared case-insensitively after the
/// alias's leading '/' characters are stripped.
pub open spec fn alias_matches(alias: Seq<char>, target: Seq<char>) -> bool {
    lower_of(strip_slashes(alias)) == lower_of(target)
}

/// Whether any alias of the container names the target.
pub open spec fn container_matches(c: Container, target: Seq<char>) -> bool {
    exists|i: int| 0 <= i < c.names@.len() && alias_matches(c.names@[i]@, target)
}

/// The id of the first container, in list order, with a matching alias.
pub open spec fn find_id_spec(containers: Seq<Container>, target: Seq<char>) -> Option<Seq<char>>
    decreases containers.len(),
{
    if containers.len() == 0 {
        None
    } else if container_matches(containers[0], target) {
        Some(containers[0].id@)
    } else {
        find_id_spec(containers.drop_first(), target)
    }
}

proof fn lemma_find_id_at(containers: Seq<Container>, target: Seq<char>, i: int)
    requires
        0 <= i <= containers.len(),
        forall|k: int| 0 <= k < i ==> !container_matches(containers[k], target),
        i < containers.len() ==> container_matches(containers[i], target),
    ensures
        i < containers.len() ==> find_id_spec(containers, target) == Some(containers[i].id@),
        i == containers.len() ==> find_id_spec(containers, target) is None,
    decreases i, containers.len(),
{
    if containers.len() == 0 {
    } else if i == 0 {
    } else {
        assert(forall|k: int|
            0 <= k < i - 1 ==> containers.drop_first()[k] == containers[k + 1]);
        lemma_find_id_at(containers.drop_first(), target, i - 1);
    }
}

/// Resolves a human-entered name to the id of the first container carrying a
/// matching alias; an unmatched name — in particular any name against an
/// empty list — fails with `ContainerNotFound`.
pub fn find_container_id(containers: &Vec<Container>, name: &str) -> (r: Result<
    String,
    UnraidError,
>)
    ensures
        r is Ok <==> find_id_spec(containers@, name@) is Some,
        r matches Ok(id) ==> find_id_spec(containers@, name@) == Some(id@),
        r matches Err(e) ==> (e matches UnraidError::ContainerNotFound { name: n } && n@ == name@),
        containers@.len() == 0 ==> r is Err,
{
    let target = lowercase(name);
    let mut i: usize = 0;
    while i < containers.len()
        invariant
            0 <= i <= containers@.len(),
            target@ == lower_of(name@),
            forall|k: int| 0 <= k < i ==> !container_matches(containers@[k], name@),
        decreases containers@.len() - i,
    {
        let c = &containers[i];
        let mut j: usize = 0;
        while j < c.names.len()
            invariant
                0 <= i < containers@.len(),
                0 <= j <= c.names@.len(),
                *c == containers@[i as int],
                target@ == lower_of(name@),
                forall|k: int| 0 <= k < i ==> !container_matches(containers@[k], name@),
                forall|l: int| 0 <= l < j ==> !alias_matches(c.names@[l]@, name@),
            decreases c.names@.len() - j,
        {
            let stripped = strip_leading_slashes(c.names[j].as_str());
            let lowered = lowercase(stripped);
            if lowered == target {
                proof {
                    assert(alias_matches(c.names@[j as int]@, name@));
                    assert(container_matches(containers@[i as int], name@));
                    lemma_find_id_at(containers@, name@, i as int);
                }
                return Ok(c.id.clone());
            }
            j = j + 1;
        }
        proof {
            assert(!container_matches(containers@[i as int], name@));
        }
        i = i + 1;
    }
    proof {
        lemma_find_id_at(containers@, name@, containers@.len() as int);
    }
    Err(UnraidError::ContainerNotFound { name: name.to_owned() })
}

/// The containers in the running state, in their listed order.
pub open spec fn running_only(containers: Seq<Container>) -> Seq<Container> {
    containers.filter(|c: Container| c.state is Running)
}

proof fn lemma_running_only_push(s: Seq<Container>, x: Container)
    ensures
        running_only(s.push(x)) == if x.state is Running {
            running_only(s).push(x)
        } else {
            running_only(s)
        },
{
    reveal(Seq::filter);
    assert(s.push(x).drop_last() =~= s);
}

/// Keeps every container when `show_all` is set, and only the running ones
/// otherwise, preserving order.
pub fn filter_by_state(containers: Vec<Container>, show_all: bool) -> (r: Vec<Container>)
    ensures
        show_all ==> r@ == containers@,
        !show_all ==> r@ == running_only(containers@),
{
    if show_all {
        containers
    } else {
        let ghost orig = containers@;
        let mut rest = containers;
        let mut result: Vec<Container> = Vec::new();
        let ghost mut i: int = 0;
        while rest.len() > 0
            invariant
                0 <= i <= orig.len(),
                rest@ == orig.skip(i),
                result@ == running_only(orig.take(i)),
            decreases rest@.len(),
        {
            let c = rest.remove(0);
            proof {
                assert(c == orig[i]);
                assert(rest@ =~= orig.skip(i + 1));
                assert(orig.take(i + 1) =~= orig.take(i).push(c));
                lemma_running_only_push(orig.take(i), c);
            }
            if c.state.is_running() {
                result.push(c);
            }
            proof {
                i = i + 1;
            }
        }
        proof {
            assert(orig.take(orig.len() as int) =~= orig);
        }
        result
    }
}

/// The name a container is listed under: its first alias with leading '/'
/// characters stripped, or "unnamed" when it has no alias.
pub open spec fn display_name_view(c: Container) -> Seq<char> {
    if c.names@.len() == 0 {
        "unnamed"@
    } else {
        strip_slashes(c.names@[0]@)
    }
}

/// Renders the name that `display_name_view` states.
pub fn display_name(c: &Container) -> (r: String)
    ensures
        r@ == display_name_view(*c),
{
    if c.names.len() == 0 {
        String::from_str("unnamed")
    } else {
        String::from_str(strip_leading_slashes(c.names[0].as_str()))
    }
}

/// One table row: name, image, state and status, each truncated to its
/// column and left-aligned, the columns separated by single spaces.
pub open spec fn row_view(c: Container) -> Seq<char> {
    padded(truncated(display_name_view(c), 29), 30) + " "@ + padded(truncated(c.image@, 39), 40)
        + " "@ + padded(c.state.label_view(), 10) + " "@ + padded(truncated(c.status@, 19), 20)
}

/// The table's column headings, aligned as the rows are.
pub open spec fn header_view() -> Seq<char> {
    padded("NAME"@, 30) + " "@ + padded("IMAGE"@, 40) + " "@ + padded("STATE"@, 10) + " "@
        + padded("STATUS"@, 20)
}

/// Renders the row that `row_view` states.
pub fn format_container_row(c: &Container) -> (r: String)
    ensures
        r@ == row_view(*c),
{
    let name = display_name(c);
    let name_col = pad_right(truncate(name.as_str(), 29).as_str(), 30);
    let image_col = pad_right(truncate(c.image.as_str(), 39).as_str(), 40);
    let state_col = pad_right(c.state.label().as_str(), 10);
    let status_col = pad_right(truncate(c.status.as_str(), 19).as_str(), 20);
    name_col.concat(" ").concat(image_col.as_str()).concat(" ").concat(state_col.as_str()).concat(
        " ",
    ).concat(status_col.as_str())
}

/// Renders the heading that `header_view` states.
pub fn format_header() -> (r: String)
    ensures
        r@ == header_view(),
{
    pad_right("NAME", 30).concat(" ").concat(pad_right("IMAGE", 40).as_str()).concat(" ").concat(
        pad_right("STATE", 10).as_str(),
    ).concat(" ").concat(pad_right("STATUS", 20).as_str())
}

/// The complete listing for the given containers: a heading, a rule and one
/// row per shown container, or a single notice when nothing is shown. Only
/// running containers are shown unless `show_all` is set.
pub fn render_container_list(containers: Vec<Container>, show_all: bool) -> (lines: Vec<String>)
    ensures
        ({
            let shown = if show_all {
                containers@
            } else {
                running_only(containers@)
            };
            if shown.len() == 0 {
                lines@.len() == 1 && lines@[0]@ == (if show_all {
                    "No containers found."@
                } else {
                    "No running containers found. Use --all to show all containers."@
                })
            } else {
                lines@.len() == shown.len() + 2 && lines@[0]@ == header_view() && lines@[1]@
                    == Seq::new(100, |i: int| '-') && (forall|k: int|
                    0 <= k < shown.len() ==> lines@[k + 2]@ == row_view(shown[k]))
            }
        }),
{
    let filtered = filter_by_state(containers, show_all);
    let ghost shown = filtered@;
    let mut lines: Vec<String> = Vec::new();
    if filtered.len() == 0 {
        if show_all {
            lines.push(String::from_str("No containers found."));
        } else {
            lines.push(
                String::from_str("No running containers found. Use --all to show all containers."),
            );
        }
        return lines;
    }
    lines.push(format_header());
    lines.push(dash_line(100));
    let mut i: usize = 0;
    while i < filtered.len()
        invariant
            0 <= i <= shown.len(),
            filtered@ == shown,
            lines@.len() == i + 2,
            lines@[0]@ == header_view(),
            lines@[1]@ == Seq::new(100, |j: int| '-'),
            forall|k: int| 0 <= k < i ==> lines@[k + 2]@ == row_view(shown[k]),
        decreases shown.len() - i,
    {
        let row = format_container_row(&filtered[i]);
        lines.push(row);
        i = i + 1;
    }
    lines
}

} // verus!
