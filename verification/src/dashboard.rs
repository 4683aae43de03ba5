//! The dashboard: a GitHub identity together with the ordered list of its
//! owned, non-fork repository names, and the rendering of that list as a
//! single-column text grid.
//!
//! Fetching the listing from the remote collaborator is the caller's job; the
//! caller hands the fetched entries in as plain [`RepoEntry`] values.

use vstd::prelude::*;

use crate::error::Error;

verus! {

/// One entry of a remote repository listing, reduced to the two fields the
/// dashboard reads.
pub struct RepoEntry {
    /// The repository's name.
    pub name: String,
    /// Whether the repository is a fork of another repository.
    pub fork: bool,
}

/// The mathematical value of a [`RepoEntry`].
pub struct RepoEntryView {
    pub name: Seq<char>,
    pub fork: bool,
}

impl View for RepoEntry {
    type V = RepoEntryView;

    open spec fn view(&self) -> RepoEntryView {
        RepoEntryView { name: self.name@, fork: self.fork }
    }
}

impl DeepView for RepoEntry {
    type V = RepoEntryView;

    open spec fn deep_view(&self) -> RepoEntryView {
        self.view()
    }
}

/// The names of the non-fork entries of `entries`, in the order of `entries`.
pub open spec fn kept_names(entries: Seq<RepoEntryView>) -> Seq<Seq<char>>
    decreases entries.len(),
{
    if entries.len() == 0 {
        Seq::empty()
    } else if entries.last().fork {
        kept_names(entries.drop_last())
    } else {
        kept_names(entries.drop_last()).push(entries.last().name)
    }
}

/// How many entries of `entries` are flagged as forks.
pub open spec fn fork_count(entries: Seq<RepoEntryView>) -> nat
    decreases entries.len(),
{
    if entries.len() == 0 {
        0
    } else {
        fork_count(entries.drop_last()) + (if entries.last().fork {
            1nat
        } else {
            0nat
        })
    }
}

/// Of a listing with `entries.len()` entries of which `fork_count(entries)`
/// are forks, exactly the difference survives the fork filter; `kept_names`
/// lists the survivors in the listing's own order.
pub proof fn lemma_kept_names_count(entries: Seq<RepoEntryView>)
    ensures
        kept_names(entries).len() + fork_count(entries) == entries.len(),
    decreases entries.len(),
{
    if entries.len() > 0 {
        lemma_kept_names_count(entries.drop_last());
    }
}

/// The fork filter works entry by entry, so it distributes over
/// concatenation: what survives of a listing is what survives of its front
/// followed by what survives of its back. In particular the surviving names
/// keep the relative order the listing gave them.
pub proof fn lemma_kept_names_concat(front: Seq<RepoEntryView>, back: Seq<RepoEntryView>)
    ensures
        kept_names(front + back) == kept_names(front) + kept_names(back),
    decreases back.len(),
{
    if back.len() == 0 {
        assert(front + back =~= front);
        assert(kept_names(front) + kept_names(back) =~= kept_names(front));
    } else {
        lemma_kept_names_concat(front, back.drop_last());
        assert((front + back).drop_last() =~= front + back.drop_last());
        assert((front + back).last() == back.last());
        if !back.last().fork {
            assert(kept_names(front) + kept_names(back) =~= (kept_names(front) + kept_names(
                back.drop_last(),
            )).push(back.last().name));
        }
    }
}

/// Each cell on a line of its own: the cells concatenated, a newline after
/// each.
pub open spec fn grid_lines(cells: Seq<Seq<char>>) -> Seq<char>
    decreases cells.len(),
{
    if cells.len() == 0 {
        Seq::empty()
    } else {
        grid_lines(cells.drop_last()) + cells.last() + seq!['\n']
    }
}

/// The select-graphic-rendition escape that turns bold styling on.
pub open spec fn bold_on() -> Seq<char> {
    seq!['\u{1b}', '[', '1', 'm']
}

/// The select-graphic-rendition escape that resets styling.
pub open spec fn bold_off() -> Seq<char> {
    seq!['\u{1b}', '[', '0', 'm']
}

/// `text` wrapped in the bold and reset escapes.
pub open spec fn bolded(text: Seq<char>) -> Seq<char> {
    bold_on() + text + bold_off()
}

/// The rendered dashboard: a bold "Repository" heading line, then one line
/// per repository name, in list order.
pub open spec fn dashboard_text(repositories: Seq<Seq<char>>) -> Seq<char> {
    grid_lines(seq![bolded("Repository"@)] + repositories)
}

/// Relies on `ansi_term`: painting a string with the bold style writes the
/// select-graphic-rendition bold escape, the string, and the reset escape.
#[verifier::external_body]
fn heading(text: &str) -> (r: String)
    ensures
        r@ == bolded(text@),
{
    ansi_term::Style::new().bold().paint(text).to_string()
}

/// Relies on `term_grid`: a left-to-right grid of left-aligned cells fit into
/// exactly one column prints each cell on a line of its own, unpadded.
#[verifier::external_body]
fn grid_one_column(cells: &Vec<String>) -> (r: String)
    ensures
        r@ == grid_lines(cells.deep_view()),
{
    let mut grid = term_grid::Grid::new(term_grid::GridOptions {
        filling: term_grid::Filling::Spaces(1),
        direction: term_grid::Direction::LeftToRight,
    });
    for cell in cells {
        grid.add(term_grid::Cell::from(cell.as_str()));
    }
    format!("{}", grid.fit_into_columns(1))
}

/// A GitHub identity and the ordered repository names shown on the dashboard.
pub struct Dashboard {
    user: String,
    token: String,
    repositories: Vec<String>,
}

/// The mathematical value of a [`Dashboard`].
pub struct DashboardView {
    pub user: Seq<char>,
    pub token: Seq<char>,
    pub repositories: Seq<Seq<char>>,
}

impl View for Dashboard {
    type V = DashboardView;

    closed spec fn view(&self) -> DashboardView {
        DashboardView {
            user: self.user@,
            token: self.token@,
            repositories: self.repositories.deep_view(),
        }
    }
}

impl Dashboard {
    /// Build a dashboard for `user` from the listing the remote collaborator
    /// returned, keeping the names of the non-fork entries in listing order.
    ///
    /// An empty user is refused before an empty token; a listing is never
    /// refused.
    pub fn new(user: &str, token: &str, listing: Vec<RepoEntry>) -> (r: Result<Dashboard, Error>)
        ensures
            user@.len() == 0 ==> r == Err::<Dashboard, Error>(Error::MustHaveUser),
            user@.len() > 0 && token@.len() == 0 ==> r == Err::<Dashboard, Error>(
                Error::MustHaveToken,
            ),
            user@.len() > 0 && token@.len() > 0 ==> (r matches Ok(d) && d@.user == user@
                && d@.token == token@ && d@.repositories == kept_names(listing.deep_view())),
    {
        if user.is_empty() {
            return Err(Error::MustHaveUser);
        }
        if token.is_empty() {
            return Err(Error::MustHaveToken);
        }
        let mut repositories: Vec<String> = Vec::new();
        let mut i: usize = 0;
        proof {
            assert(repositories.deep_view() =~= kept_names(listing.deep_view().take(0)));
        }
        while i < listing.len()
            invariant
                i <= listing@.len(),
                repositories.deep_view() == kept_names(listing.deep_view().take(i as int)),
            decreases listing@.len() - i,
        {
            let ghost prefix = listing.deep_view().take(i as int);
            let ghost kept = repositories.deep_view();
            if !listing[i].fork {
                let name = listing[i].name.clone();
                repositories.push(name);
                proof {
                    assert(repositories.deep_view() =~= kept.push(listing.deep_view()[i as int].name));
                }
            }
            i += 1;
            proof {
                assert(listing.deep_view().take(i as int).drop_last() =~= prefix);
                assert(repositories.deep_view() == kept_names(listing.deep_view().take(i as int)));
            }
        }
        proof {
            assert(listing.deep_view().take(listing@.len() as int) =~= listing.deep_view());
        }
        Ok(Dashboard { user: user.to_owned(), token: token.to_owned(), repositories })
    }

    /// The user the dashboard is for.
    pub fn user(&self) -> (r: &str)
        ensures
            r@ == self@.user,
    {
        self.user.as_str()
    }

    /// Replace the user name in place; the token and the repository list are
    /// untouched, and nothing is re-fetched or revalidated.
    pub fn set_user(&mut self, user: &str) -> (r: &mut Self)
        ensures
            r@.user == user@,
            r@.token == old(self)@.token,
            r@.repositories == old(self)@.repositories,
            *final(self) == *final(r),
    {
        self.user = user.to_owned();
        self
    }

    /// Replace the token in place; the user and the repository list are
    /// untouched, and nothing is re-fetched or revalidated.
    pub fn set_token(&mut self, token: &str) -> (r: &mut Self)
        ensures
            r@.token == token@,
            r@.user == old(self)@.user,
            r@.repositories == old(self)@.repositories,
            *final(self) == *final(r),
    {
        self.token = token.to_owned();
        self
    }

    /// Append one repository name at the end of the list; no deduplication,
    /// no re-sort; the user and the token are untouched.
    pub fn add_repo(&mut self, repo: &str) -> (r: &mut Self)
        ensures
            r@.repositories == old(self)@.repositories.push(repo@),
            r@.user == old(self)@.user,
            r@.token == old(self)@.token,
            *final(self) == *final(r),
    {
        self.repositories.push(repo.to_owned());
        proof {
            assert(self.repositories.deep_view() =~= old(self)@.repositories.push(repo@));
        }
        self
    }

    /// Render the dashboard: a bold "Repository" heading, then one line per
    /// repository name, in list order. The result is a pure function of the
    /// dashboard's state.
    pub fn build_dashboard(&self) -> (r: String)
        ensures
            r@ == dashboard_text(self@.repositories),
    {
        let mut cells: Vec<String> = Vec::new();
        cells.push(heading("Repository"));
        proof {
            assert(cells.deep_view() =~= seq![bolded("Repository"@)]
                + self@.repositories.take(0));
        }
        let mut i: usize = 0;
        while i < self.repositories.len()
            invariant
                i <= self@.repositories.len(),
                cells.deep_view() == seq![bolded("Repository"@)] + self@.repositories.take(
                    i as int,
                ),
            decreases self@.repositories.len() - i,
        {
            let ghost prev = cells.deep_view();
            cells.push(self.repositories[i].clone());
            proof {
                assert(cells.deep_view() =~= prev.push(self@.repositories[i as int]));
            }
            i += 1;
            proof {
                assert(cells.deep_view() =~= seq![bolded("Repository"@)]
                    + self@.repositories.take(i as int));
            }
        }
        proof {
            assert(seq![bolded("Repository"@)] + self@.repositories.take(
                self@.repositories.len() as int,
            ) =~= seq![bolded("Repository"@)] + self@.repositories);
        }
        grid_one_column(&cells)
    }
}

/// Rendering is a pure function of the dashboard's state: two renderings of
/// the same unmodified state are the same text, byte for byte.
pub proof fn lemma_render_deterministic(d: DashboardView, r1: Seq<char>, r2: Seq<char>)
    requires
        r1 == dashboard_text(d.repositories),
        r2 == dashboard_text(d.repositories),
    ensures
        r1 == r2,
{
}

} // verus!
