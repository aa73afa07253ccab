//! The dashboard: the list of cards, the chosen root path, and the
//! currently selected card.
//!
//! Picking a folder replaces the whole card list and clears the
//! selection; a card's detail action selects that card, which shows the
//! drawer; closing the drawer clears the selection again. Selector events
//! reach their card without touching the selection — the detail drawer
//! opens only on the explicit detail action.

use vstd::prelude::*;
use vstd::string::StringExecFns;
use crate::card::{self, card, card_step, card_view_matches, is_card_for, Card, CardView};
use crate::drawer::Drawer;
use crate::paths::{base_name, base_name_of};
use crate::repo::{CommitInfo, FetchError, RepoSource};
use crate::timefmt::{format_utc_timestamp, renders, utc_time_text};

verus! {

/// State of the dashboard.
#[derive(Debug)]
pub struct Dashboard {
    pub selected_path: Option<String>,
    pub cards: Vec<Card>,
    pub selected_card_id: Option<usize>,
}

/// An event reaching the dashboard: the folder-pick control was pressed,
/// a card raised an event, or the drawer was dismissed.
#[derive(Debug, Clone)]
pub enum Message {
    FolderPick,
    CardMessage(usize, card::Message),
    DrawerClose,
}

/// What the caller must do after an update: open the native folder
/// dialog (and hand the outcome to [`Dashboard::cards_update`]), or
/// nothing.
#[derive(Debug, PartialEq, Eq, Structural)]
pub enum Action {
    OpenFolderDialog,
    Nothing,
}

/// The position of the first card with the id `id`, if any.
pub open spec fn find_card(cards: Seq<Card>, id: usize) -> Option<int>
    decreases cards.len(),
{
    if cards.len() == 0 {
        None
    } else if cards[0].id == id {
        Some(0int)
    } else {
        match find_card(cards.drop_first(), id) {
            Some(i) => Some(i + 1),
            None => None,
        }
    }
}

/// The selection, when set, names a card that is present.
pub open spec fn selection_valid(d: Dashboard) -> bool {
    d.selected_card_id matches Some(id) ==> find_card(d.cards@, id) is Some
}

/// The dashboard with its selection cleared and everything else as it
/// was.
pub open spec fn deselected(d: Dashboard) -> Dashboard {
    Dashboard { selected_path: d.selected_path, cards: d.cards, selected_card_id: None }
}

/// A scan through the first `i` cards that saw the id `id` nowhere
/// settles what [`find_card`] returns.
proof fn lemma_find_card_first(cards: Seq<Card>, id: usize, i: int)
    requires
        0 <= i <= cards.len(),
        forall|j: int| 0 <= j < i ==> (#[trigger] cards[j]).id != id,
    ensures
        i == cards.len() ==> find_card(cards, id) is None,
        i < cards.len() && cards[i].id == id ==> find_card(cards, id) == Some(i),
    decreases i,
{
    if i > 0 {
        lemma_find_card_first(cards.drop_first(), id, i - 1);
    }
}

/// Two card lists with the same ids in the same places are searched
/// alike.
proof fn lemma_find_card_same_ids(a: Seq<Card>, b: Seq<Card>, id: usize)
    requires
        a.len() == b.len(),
        forall|j: int| 0 <= j < a.len() ==> (#[trigger] a[j]).id == b[j].id,
    ensures
        find_card(a, id) == find_card(b, id),
    decreases a.len(),
{
    if a.len() > 0 {
        assert(forall|j: int|
            0 <= j < a.drop_first().len() ==> (#[trigger] a.drop_first()[j]).id
                == b.drop_first()[j].id);
        lemma_find_card_same_ids(a.drop_first(), b.drop_first(), id);
    }
}

impl Dashboard {
    /// An empty dashboard: no path chosen, no cards, nothing selected.
    pub fn new() -> (d: Dashboard)
        ensures
            d.selected_path is None,
            d.cards@.len() == 0,
            d.selected_card_id is None,
    {
        Dashboard { selected_path: None, cards: Vec::new(), selected_card_id: None }
    }

    /// Applies one event.
    ///
    /// The folder-pick control only asks the caller to open the dialog;
    /// the state changes when the outcome arrives at
    /// [`Dashboard::cards_update`]. A card event reaches the first card
    /// with that id, and the card's detail action — and only that —
    /// selects the card; an id that names no card changes nothing.
    /// Dismissing the drawer clears the selection.
    pub fn update(&mut self, message: Message) -> (action: Action)
        ensures
            match message {
                Message::FolderPick => *final(self) == *old(self) && action
                    == Action::OpenFolderDialog,
                Message::DrawerClose => *final(self) == deselected(*old(self)) && action
                    == Action::Nothing,
                Message::CardMessage(id, inner) => {
                    &&& action == Action::Nothing
                    &&& final(self).selected_path == old(self).selected_path
                    &&& match find_card(old(self).cards@, id) {
                        Some(i) => {
                            &&& final(self).cards@ == old(self).cards@.update(
                                i,
                                card_step(old(self).cards@[i], inner),
                            )
                            &&& final(self).selected_card_id == if inner is DetailRequested {
                                Some(id)
                            } else {
                                old(self).selected_card_id
                            }
                        },
                        None => {
                            &&& final(self).cards == old(self).cards
                            &&& final(self).selected_card_id == old(self).selected_card_id
                        },
                    }
                },
            },
            selection_valid(*old(self)) ==> selection_valid(*final(self)),
    {
        match message {
            Message::FolderPick => Action::OpenFolderDialog,
            Message::DrawerClose => {
                self.selected_card_id = None;
                Action::Nothing
            },
            Message::CardMessage(id, inner) => {
                let ghost cards0 = self.cards@;
                let n = self.cards.len();
                let mut i: usize = 0;
                while i < n && self.cards[i].id != id
                    invariant
                        0 <= i <= n,
                        n == self.cards@.len(),
                        self.cards@ == cards0,
                        forall|j: int| 0 <= j < i ==> (#[trigger] cards0[j]).id != id,
                    decreases n - i,
                {
                    i = i + 1;
                }
                if i < n {
                    proof {
                        lemma_find_card_first(cards0, id, i as int);
                    }
                    let opens_detail = match &inner {
                        card::Message::DetailRequested => true,
                        card::Message::SelectMessage(_) => false,
                    };
                    let c = &mut self.cards[i];
                    c.update(inner);
                    if opens_detail {
                        self.selected_card_id = Some(id);
                    }
                    proof {
                        let cards1 = self.cards@;
                        assert(forall|j: int|
                            0 <= j < cards0.len() ==> (#[trigger] cards0[j]).id == cards1[j].id);
                        if opens_detail {
                            lemma_find_card_same_ids(cards0, cards1, id);
                        } else {
                            match old(self).selected_card_id {
                                Some(sel) => lemma_find_card_same_ids(cards0, cards1, sel),
                                None => (),
                            }
                        }
                    }
                } else {
                    proof {
                        lemma_find_card_first(cards0, id, n as int);
                    }
                }
                Action::Nothing
            },
        }
    }

    /// Replaces the whole card list with cards built from what was
    /// fetched under the newly chosen root, numbering them in order, and
    /// clears the selection. Nothing of the old list survives.
    pub fn cards_update(&mut self, path: String, sources: Vec<RepoSource>)
        ensures
            final(self).selected_path == Some(path),
            final(self).selected_card_id is None,
            final(self).cards@.len() == sources@.len(),
            forall|i: int|
                0 <= i < sources@.len() ==> is_card_for(
                    #[trigger] final(self).cards@[i],
                    i as usize,
                    sources@[i],
                ),
            selection_valid(*final(self)),
    {
        let mut remaining = sources;
        let ghost sources0 = remaining@;
        let mut cards: Vec<Card> = Vec::new();
        let total = remaining.len();
        let mut i: usize = 0;
        while i < total
            invariant
                total == sources0.len(),
                0 <= i <= total,
                remaining@ == sources0.subrange(i as int, total as int),
                cards@.len() == i,
                forall|j: int|
                    0 <= j < i ==> is_card_for(#[trigger] cards@[j], j as usize, sources0[j]),
            decreases total - i,
        {
            proof {
                assert(remaining@[0] == sources0[i as int]);
                assert(remaining@.remove(0) =~= sources0.subrange(i + 1int, total as int));
            }
            let source = remaining.remove(0);
            let c = card(i, source);
            cards.push(c);
            i = i + 1;
        }
        self.selected_path = Some(path);
        self.cards = cards;
        self.selected_card_id = None;
    }
}

/// Closing the drawer always clears the selection, whatever card was
/// open; the backdrop and the close control both lead here, since the
/// drawer emits one close message for both.
pub proof fn lemma_drawer_close_deselects(d: Dashboard)
    ensures
        deselected(d).selected_card_id is None,
        deselected(d).cards == d.cards,
        deselected(d).selected_path == d.selected_path,
{
}

/// What the caller must fetch and show for the selected card: the
/// commits of the repository at `path`, in a drawer titled after the
/// directory.
#[derive(Debug)]
pub struct DrawerRequest {
    pub card_id: usize,
    pub path: String,
    pub title: String,
}

/// What the host widget draws for the dashboard: the chosen path or a
/// placeholder, one view per card, and the drawer request when a card is
/// selected.
#[derive(Debug)]
pub struct DashboardView {
    pub path_display: String,
    pub cards: Vec<CardView>,
    pub drawer: Option<DrawerRequest>,
}

impl Dashboard {
    /// What the widget draws. A selection that names no card — possible
    /// only transiently — yields no drawer rather than a failing lookup.
    pub fn view(&self) -> (v: DashboardView)
        ensures
            match self.selected_path {
                Some(p) => v.path_display == p,
                None => v.path_display@ == "(未選択)"@,
            },
            v.cards@.len() == self.cards@.len(),
            forall|i: int|
                0 <= i < self.cards@.len() ==> card_view_matches(
                    #[trigger] v.cards@[i],
                    self.cards@[i],
                ),
            match self.selected_card_id {
                Some(id) => match find_card(self.cards@, id) {
                    Some(i) => {
                        &&& v.drawer matches Some(req)
                        &&& req.card_id == id
                        &&& req.path == self.cards@[i].path
                        &&& req.title@ == "詳細: "@ + base_name_of(self.cards@[i].path@)
                    },
                    None => v.drawer is None,
                },
                None => v.drawer is None,
            },
    {
        let path_display = match &self.selected_path {
            Some(p) => p.clone(),
            None => "(未選択)".to_owned(),
        };
        let mut card_views: Vec<CardView> = Vec::new();
        let n = self.cards.len();
        let mut i: usize = 0;
        while i < n
            invariant
                n == self.cards@.len(),
                0 <= i <= n,
                card_views@.len() == i,
                forall|j: int|
                    0 <= j < i ==> card_view_matches(#[trigger] card_views@[j], self.cards@[j]),
            decreases n - i,
        {
            let cv = self.cards[i].view();
            card_views.push(cv);
            i = i + 1;
        }
        let drawer = match self.selected_card_id {
            Some(id) => {
                let mut k: usize = 0;
                while k < n && self.cards[k].id != id
                    invariant
                        0 <= k <= n,
                        n == self.cards@.len(),
                        forall|j: int| 0 <= j < k ==> (#[trigger] self.cards@[j]).id != id,
                    decreases n - k,
                {
                    k = k + 1;
                }
                if k < n {
                    proof {
                        lemma_find_card_first(self.cards@, id, k as int);
                    }
                    let mut title = "詳細: ".to_owned();
                    let dir = base_name(self.cards[k].path.as_str());
                    title.append(dir.as_str());
                    Some(
                        DrawerRequest {
                            card_id: id,
                            path: self.cards[k].path.clone(),
                            title,
                        },
                    )
                } else {
                    proof {
                        lemma_find_card_first(self.cards@, id, n as int);
                    }
                    None
                }
            },
            None => None,
        };
        DashboardView { path_display, cards: card_views, drawer }
    }
}

/// One line of the drawer's commit list; the stamp is the UTC rendering
/// of the commit's author timestamp.
#[derive(Debug)]
pub struct CommitRow {
    pub commit_id: String,
    pub summary: String,
    pub author: String,
    pub time_text: Option<String>,
}

/// How a rendered row reflects the commit `c`.
pub open spec fn commit_row_matches(r: CommitRow, c: CommitInfo) -> bool {
    &&& r.commit_id == c.commit_id
    &&& r.summary == c.summary
    &&& r.author == c.author
    &&& (r.time_text matches Some(t) ==> t@ == utc_time_text(c.timestamp_secs, c.timestamp_nanos))
    &&& (renders(c.timestamp_secs, c.timestamp_nanos) ==> r.time_text is Some)
}

/// The drawer's content: one row per commit, or the error the commit
/// listing ended in.
#[derive(Debug)]
pub struct DetailView {
    pub rows: Vec<CommitRow>,
    pub error: Option<String>,
}

/// What the drawer shows for the selected card, from the commit listing
/// the caller fetched on demand: every commit in order, or an error state
/// instead of a failing lookup.
pub fn view_card_details(commits: &Result<Vec<CommitInfo>, FetchError>) -> (v: DetailView)
    ensures
        match *commits {
            Ok(list) => {
                &&& v.error is None
                &&& v.rows@.len() == list@.len()
                &&& forall|i: int|
                    0 <= i < list@.len() ==> commit_row_matches(#[trigger] v.rows@[i], list@[i])
            },
            Err(e) => v.rows@.len() == 0 && v.error == Some(e.message),
        },
{
    match commits {
        Ok(list) => {
            let mut rows: Vec<CommitRow> = Vec::new();
            let n = list.len();
            let mut i: usize = 0;
            while i < n
                invariant
                    n == list@.len(),
                    0 <= i <= n,
                    rows@.len() == i,
                    forall|j: int|
                        0 <= j < i ==> commit_row_matches(#[trigger] rows@[j], list@[j]),
                decreases n - i,
            {
                let entry = &list[i];
                rows.push(
                    CommitRow {
                        commit_id: entry.commit_id.clone(),
                        summary: entry.summary.clone(),
                        author: entry.author.clone(),
                        time_text: format_utc_timestamp(entry.timestamp_secs, entry.timestamp_nanos),
                    },
                );
                i = i + 1;
            }
            DetailView { rows, error: None }
        },
        Err(e) => DetailView { rows: Vec::new(), error: Some(e.message.clone()) },
    }
}

/// The drawer shown for a selected card: titled from the request, filled
/// with the detail view, and dismissed — by backdrop or close control
/// alike — with [`Message::DrawerClose`].
pub fn detail_drawer(request: DrawerRequest, detail: DetailView) -> (d: Drawer<Message, DetailView>)
    ensures
        d.title == request.title,
        d.content == detail,
        d.on_close == Some(Message::DrawerClose),
{
    Drawer::new(request.title, detail).on_close(Message::DrawerClose)
}

impl Default for Dashboard {
    /// The empty dashboard.
    fn default() -> (d: Dashboard)
        ensures
            d.selected_path is None,
            d.cards@.len() == 0,
            d.selected_card_id is None,
    {
        Dashboard::new()
    }
}

} // verus!
