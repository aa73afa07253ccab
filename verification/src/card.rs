//! The summary card for one discovered repository.
//!
//! A card carries a scan-local id, the repository's path, the status
//! digest if it could be fetched, and a branch selector — or the error the
//! branch listing ended in, rendered as an error state instead of aborting.

use vstd::prelude::*;
use vstd::string::StringExecFns;
use crate::paths::{base_name, base_name_of};
use crate::repo::{FetchError, RepoSource, StatusDigest};
use crate::select::{self, Select, SelectOption, SelectView, select_step, select_view_matches};
use crate::timefmt::{renders, system_time_to_string};

verus! {

/// State of one card.
#[derive(Debug)]
pub struct Card {
    pub id: usize,
    pub path: String,
    pub status_digest: Option<StatusDigest>,
    pub branch_selector: Result<Select, FetchError>,
}

/// An event raised on a card: its detail action was pressed, or its
/// branch selector raised an event.
#[derive(Debug, Clone)]
pub enum Message {
    DetailRequested,
    SelectMessage(select::Message),
}

/// How a card built from `source` under the id `id` looks: the digest is
/// kept as fetched, and the branch selector starts fresh over the listed
/// branch names — numbered in order — or records the listing's error.
pub open spec fn is_card_for(c: Card, id: usize, source: RepoSource) -> bool {
    &&& c.id == id
    &&& c.path == source.path
    &&& c.status_digest == source.status_digest
    &&& match source.local_branches {
        Ok(names) => {
            &&& c.branch_selector matches Ok(sel)
            &&& sel.selected_item is None
            &&& sel.input_value@ == Seq::<char>::empty()
            &&& sel.label@ == "test"@
            &&& sel.options@.len() == names@.len()
            &&& forall|i: int|
                0 <= i < names@.len() ==> (#[trigger] sel.options@[i]).id == i
                    && sel.options@[i].label == names@[i]
        },
        Err(e) => c.branch_selector == Err::<Select, FetchError>(e),
    }
}

/// Builds the card for one discovered repository.
pub fn card(id: usize, source: RepoSource) -> (c: Card)
    ensures
        is_card_for(c, id, source),
{
    let branch_selector = match source.local_branches {
        Ok(names) => {
            let mut options: Vec<SelectOption> = Vec::new();
            let n = names.len();
            let mut i: usize = 0;
            while i < n
                invariant
                    n == names@.len(),
                    0 <= i <= n,
                    options@.len() == i,
                    forall|j: int|
                        0 <= j < i ==> (#[trigger] options@[j]).id == j && options@[j].label
                            == names@[j],
                decreases n - i,
            {
                options.push(SelectOption { id: i, label: names[i].clone() });
                i = i + 1;
            }
            Ok(Select::new(options, "test".to_owned()))
        },
        Err(e) => Err(e),
    };
    Card { id, path: source.path, status_digest: source.status_digest, branch_selector }
}

/// The card after `message` is applied: a selector event reaches the
/// selector, the detail action changes nothing on the card itself.
pub open spec fn card_step(c: Card, message: Message) -> Card {
    match message {
        Message::DetailRequested => c,
        Message::SelectMessage(inner) => Card {
            id: c.id,
            path: c.path,
            status_digest: c.status_digest,
            branch_selector: match c.branch_selector {
                Ok(sel) => Ok(select_step(sel, inner)),
                Err(e) => Err(e),
            },
        },
    }
}

impl Card {
    /// A card from parts already at hand.
    pub fn new(
        id: usize,
        path: String,
        status_digest: Option<StatusDigest>,
        branch_selector: Result<Select, FetchError>,
    ) -> (c: Card)
        ensures
            c.id == id,
            c.path == path,
            c.status_digest == status_digest,
            c.branch_selector == branch_selector,
    {
        Card { id, path, status_digest, branch_selector }
    }

    /// Applies one event to the card.
    pub fn update(&mut self, message: Message)
        ensures
            *final(self) == card_step(*old(self), message),
    {
        match message {
            Message::DetailRequested => {},
            Message::SelectMessage(inner) => {
                match &mut self.branch_selector {
                    Ok(sel) => sel.update(inner),
                    Err(_) => {},
                }
            },
        }
    }
}

/// What the card is titled: with a digest, the repository's name — marked
/// with the directory's base name where the two differ — and without one,
/// the base name alone.
pub open spec fn card_title(c: Card) -> Seq<char> {
    match c.status_digest {
        Some(d) => if d.repo_name@ == base_name_of(c.path@) {
            d.repo_name@
        } else {
            d.repo_name@ + " (Dir: "@ + base_name_of(c.path@) + ")"@
        },
        None => base_name_of(c.path@),
    }
}

/// What the host widget draws for a card: the title line, the digest's
/// branch, summary and local-time commit stamp where present, and the
/// branch selector or the branch listing's error message.
#[derive(Debug)]
pub struct CardView {
    pub title: String,
    pub current_branch: Option<String>,
    pub last_commit_summary: Option<String>,
    pub last_commit_time: Option<String>,
    pub branch_selector: Result<SelectView, String>,
}

/// How a rendered [`CardView`] reflects the card `c`. The commit stamp's
/// text is the machine's local rendering and is not pinned down, only its
/// presence is.
pub open spec fn card_view_matches(v: CardView, c: Card) -> bool {
    &&& v.title@ == card_title(c)
    &&& match c.status_digest {
        Some(d) => {
            &&& v.current_branch == Some(d.current_branch)
            &&& v.last_commit_summary == Some(d.last_commit_summary)
            &&& renders(d.last_commit_timestamp_secs, d.last_commit_timestamp_nanos)
                ==> v.last_commit_time is Some
        },
        None => {
            &&& v.current_branch is None
            &&& v.last_commit_summary is None
            &&& v.last_commit_time is None
        },
    }
    &&& match c.branch_selector {
        Ok(sel) => v.branch_selector matches Ok(sv) && select_view_matches(sv, sel),
        Err(e) => v.branch_selector == Err::<SelectView, String>(e.message),
    }
}

impl Card {
    /// What the widget draws for this card.
    pub fn view(&self) -> (v: CardView)
        ensures
            card_view_matches(v, *self),
    {
        let dir_name = base_name(self.path.as_str());
        let (title, current_branch, last_commit_summary, last_commit_time): (
            String,
            Option<String>,
            Option<String>,
            Option<String>,
        ) = match &self.status_digest {
            Some(d) => {
                let title = if d.repo_name == dir_name {
                    d.repo_name.clone()
                } else {
                    let mut t = d.repo_name.clone();
                    t.append(" (Dir: ");
                    t.append(dir_name.as_str());
                    t.append(")");
                    proof {
                        assert(t@ =~= card_title(*self));
                    }
                    t
                };
                (
                    title,
                    Some(d.current_branch.clone()),
                    Some(d.last_commit_summary.clone()),
                    system_time_to_string(
                        d.last_commit_timestamp_secs,
                        d.last_commit_timestamp_nanos,
                    ),
                )
            },
            None => (dir_name, None, None, None),
        };
        let branch_selector = match &self.branch_selector {
            Ok(sel) => Ok(sel.view()),
            Err(e) => Err(e.message.clone()),
        };
        CardView { title, current_branch, last_commit_summary, last_commit_time, branch_selector }
    }
}

/// On a card with a working selector, choosing option `x` records it as
/// the selection and mirrors its label into the input; entering text `y`
/// that does not match `x`'s label then clears the selection again.
pub proof fn lemma_card_select_then_edit(c: Card, x: SelectOption, y: String)
    requires
        c.branch_selector is Ok,
        y@ != x.label@,
    ensures
        ({
            let chosen = card_step(
                c,
                Message::SelectMessage(select::Message::OptionSelected(x)),
            );
            let edited = card_step(
                chosen,
                Message::SelectMessage(select::Message::InputChanged(y)),
            );
            &&& chosen.branch_selector matches Ok(s1) && s1.selected_item == Some(x)
                && s1.input_value == x.label
            &&& edited.branch_selector matches Ok(s2) && s2.selected_item is None
                && s2.input_value == y
        }),
{
}

/// A card without a status digest is titled by its directory's base name
/// alone.
pub proof fn lemma_title_without_digest(c: Card)
    requires
        c.status_digest is None,
    ensures
        card_title(c) == base_name_of(c.path@),
{
}

} // verus!
