//! The track catalog: the whole collection, the list that is shown, and the
//! two cursors, one on the shown list and one on the track that plays.

use crate::fuzzy_search::{best, ranked, scored, ByScore, Criterion, Score};
use crate::order::{in_stable_order, rearranged, stable_sort, stably_sorted};
use crate::parser::Sorting;
use crate::text::{chars_of, same_text, string_of};
use crate::track::{Music, TrackOrder, TrackView};
use vstd::prelude::*;

verus! {

/// How many tracks a query shows at most.
pub const SHOWN_AT_MOST: usize = 20;

/// `i` is the first position of `s` that holds `c`.
pub open spec fn is_first_of(s: Seq<char>, c: char, i: int) -> bool {
    &&& 0 <= i < s.len()
    &&& s[i] == c
    &&& forall|j: int| 0 <= j < i ==> s[j] != c
}

/// What a search text asks for: nothing (show everything), or a text to
/// hold against one criterion. `field:value` asks for `value` by `field`
/// where `field` is `duration` or `artist`; every other text is held
/// against the titles as it is.
pub open spec fn query_of(buffer: Seq<char>) -> Option<(Criterion, Seq<char>)> {
    if buffer.len() == 0 {
        None
    } else if exists|k: int| is_first_of(buffer, ':', k) {
        let k = choose|k: int| is_first_of(buffer, ':', k);
        if buffer.take(k) == "duration"@ {
            Some((Criterion::Duration, buffer.skip(k + 1)))
        } else if buffer.take(k) == "artist"@ {
            Some((Criterion::Artist, buffer.skip(k + 1)))
        } else {
            Some((Criterion::Title, buffer))
        }
    } else {
        Some((Criterion::Title, buffer))
    }
}

/// A search text `duration:value` asks for `value` by the shown playing
/// time and `artist:value` asks for it by the artist, whatever `value`
/// holds; the titles have no part in either.
pub proof fn lemma_field_queries(value: Seq<char>)
    ensures
        query_of("duration"@ + seq![':'] + value) == Some((Criterion::Duration, value)),
        query_of("artist"@ + seq![':'] + value) == Some((Criterion::Artist, value)),
{
    reveal_strlit("duration");
    reveal_strlit("artist");
    let d = "duration"@ + seq![':'] + value;
    assert(is_first_of(d, ':', 8));
    let k = choose|k: int| is_first_of(d, ':', k);
    assert(k == 8);
    assert(d.take(8) =~= "duration"@);
    assert(d.skip(9) =~= value);
    let a = "artist"@ + seq![':'] + value;
    assert(is_first_of(a, ':', 6));
    let j = choose|j: int| is_first_of(a, ':', j);
    assert(j == 6);
    assert(a.take(6) =~= "artist"@);
    assert(a.skip(7) =~= value);
    assert("artist"@.len() != "duration"@.len());
}

/// Reads a search text.
pub fn parse_query(buffer: &str) -> (r: Option<(Criterion, String)>)
    ensures
        match r {
            Some((criterion, text)) => query_of(buffer@) == Some((criterion, text@)),
            None => query_of(buffer@) is None,
        },
{
    let chars = chars_of(buffer);
    let n = chars.len();
    if n == 0 {
        return None;
    }
    let mut k: usize = 0;
    while k < n && chars[k] != ':'
        invariant
            k <= n,
            n == chars.len(),
            forall|j: int| 0 <= j < k ==> chars@[j] != ':',
        decreases n - k,
    {
        k += 1;
    }
    if k < n {
        assert(is_first_of(buffer@, ':', k as int));
        let ghost chosen = choose|c: int| is_first_of(buffer@, ':', c);
        assert(chosen == k);
        let field = string_of(&chars, 0, k);
        assert(field@ =~= buffer@.take(k as int));
        if same_text(field.as_str(), "duration") {
            let value = string_of(&chars, k + 1, n);
            assert(value@ =~= buffer@.skip(k + 1));
            return Some((Criterion::Duration, value));
        }
        if same_text(field.as_str(), "artist") {
            let value = string_of(&chars, k + 1, n);
            assert(value@ =~= buffer@.skip(k + 1));
            return Some((Criterion::Artist, value));
        }
    } else {
        assert(!exists|c: int| is_first_of(buffer@, ':', c));
    }
    let whole = string_of(&chars, 0, n);
    assert(whole@ =~= buffer@);
    Some((Criterion::Title, whole))
}

/// `i` is the first position of `s` whose track equals `t`.
pub open spec fn is_first_match(s: Seq<Music>, t: TrackView, i: int) -> bool {
    &&& 0 <= i < s.len()
    &&& s[i]@ == t
    &&& forall|j: int| 0 <= j < i ==> s[j]@ != t
}

/// The first position of `s` whose track equals `t`, if there is one.
pub open spec fn first_match(s: Seq<Music>, t: TrackView) -> Option<int> {
    if exists|i: int| is_first_match(s, t, i) {
        Some(choose|i: int| is_first_match(s, t, i))
    } else {
        None
    }
}

/// A track that equals the one at `i` in `s` has a first position in `s`,
/// at `i` or before it.
pub proof fn lemma_first_match_found(s: Seq<Music>, t: TrackView, i: int)
    requires
        0 <= i < s.len(),
        s[i]@ == t,
    ensures
        first_match(s, t) matches Some(k) && is_first_match(s, t, k) && k <= i,
    decreases i,
{
    if exists|j: int| 0 <= j < i && s[j]@ == t {
        let j = choose|j: int| 0 <= j < i && s[j]@ == t;
        lemma_first_match_found(s, t, j);
    } else {
        assert(is_first_match(s, t, i));
    }
    let k = choose|k: int| is_first_match(s, t, k);
    assert(k <= i);
}

/// Looks `track` up in `list`.
pub fn find_track(list: &Vec<Music>, track: &Music) -> (r: Option<usize>)
    ensures
        match r {
            Some(i) => first_match(list@, track@) == Some(i as int),
            None => first_match(list@, track@) is None,
        },
{
    let mut i: usize = 0;
    while i < list.len()
        invariant
            i <= list.len(),
            forall|j: int| 0 <= j < i ==> list@[j]@ != track@,
        decreases list.len() - i,
    {
        if list[i] == *track {
            assert(is_first_match(list@, track@, i as int));
            let ghost chosen = choose|c: int| is_first_match(list@, track@, c);
            assert(chosen == i);
            return Some(i);
        }
        i += 1;
    }
    assert(!exists|c: int| is_first_match(list@, track@, c));
    None
}

/// A copy of `list`.
pub fn clone_tracks(list: &Vec<Music>) -> (r: Vec<Music>)
    ensures
        r@ == list@,
{
    let mut r: Vec<Music> = Vec::new();
    let mut i: usize = 0;
    while i < list.len()
        invariant
            i <= list.len(),
            r@ == list@.take(i as int),
        decreases list.len() - i,
    {
        r.push(list[i].clone());
        assert(list@.take(i + 1) =~= list@.take(i as int).push(list@[i as int]));
        i += 1;
    }
    assert(list@.take(i as int) =~= list@);
    r
}

/// The tracks of a ranked list, without their scores.
pub open spec fn tracks_of(entries: Seq<(Music, Score)>) -> Seq<Music> {
    entries.map_values(|e: (Music, Score)| e.0)
}

fn into_tracks(entries: Vec<(Music, Score)>) -> (r: Vec<Music>)
    ensures
        r@ == tracks_of(entries@),
{
    let mut r: Vec<Music> = Vec::new();
    let mut i: usize = 0;
    while i < entries.len()
        invariant
            i <= entries.len(),
            r@ == tracks_of(entries@.take(i as int)),
        decreases entries.len() - i,
    {
        r.push(entries[i].0.clone());
        assert(tracks_of(entries@.take(i + 1)) =~= tracks_of(entries@.take(i as int)).push(
            entries@[i as int].0,
        ));
        i += 1;
    }
    assert(entries@.take(i as int) =~= entries@);
    r
}

/// `shown` is what the search text `buffer` shows of `full`: all of it for
/// the empty text, else the best tracks by the query's criterion.
pub open spec fn answers(buffer: Seq<char>, full: Seq<Music>, shown: Seq<Music>) -> bool {
    match query_of(buffer) {
        None => shown == full,
        Some((criterion, text)) => exists|top: Seq<(Music, Score)>|
            best(text, full, criterion.text(), SHOWN_AT_MOST as nat, top) && shown == tracks_of(
                top,
            ),
    }
}

/// The best entries of a ranked list are no more than the items, and each
/// is one of them.
pub proof fn lemma_best_of_items<T>(
    query: Seq<char>,
    items: Seq<T>,
    text: spec_fn(T) -> Seq<char>,
    n: nat,
    out: Seq<(T, Score)>,
)
    requires
        best(query, items, text, n, out),
    ensures
        out.len() == if n <= items.len() {
            n
        } else {
            items.len()
        },
        forall|i: int| 0 <= i < out.len() ==> items.contains((#[trigger] out[i]).0),
{
    let all = choose|all: Seq<(T, Score)>|
        ranked(query, items, text, all) && out == all.take(
            if n <= items.len() {
                n as int
            } else {
                items.len() as int
            },
        );
    let plain = choose|plain: Seq<(T, Score)>|
        scored(query, items, text, plain) && stably_sorted(ByScore, plain, all);
    let p = choose|p: Seq<int>| rearranged(plain, all, p) && in_stable_order(ByScore, plain, p);
    assert forall|i: int| 0 <= i < out.len() implies items.contains((#[trigger] out[i]).0) by {
        assert(out[i] == all[i]);
        assert(all[i] == plain[p[i]]);
        assert(plain[p[i]].0 == items[p[i]]);
    }
}

/// A request for a track that the catalog cannot meet.
#[derive(Debug, Copy, Clone, PartialEq, Eq, Structural)]
pub enum CatalogError {
    /// Nothing is shown, so nothing is selected.
    NotFound,
}

/// What a catalog holds: the whole collection, the shown list, the selected
/// position in the shown list and the playing position in the collection.
pub struct CatalogView {
    pub full: Seq<Music>,
    pub shown: Seq<Music>,
    pub selected: int,
    pub playing: Option<int>,
}

impl CatalogView {
    /// The cursors point into their lists, and what is shown is taken from
    /// the collection.
    pub open spec fn wf(self) -> bool {
        &&& self.shown.len() <= self.full.len()
        &&& forall|i: int|
            0 <= i < self.shown.len() ==> first_match(self.full, (#[trigger] self.shown[i])@) is Some
        &&& 0 <= self.selected < self.shown.len() || (self.shown.len() == 0 && self.selected == 0)
        &&& self.playing matches Some(i) ==> 0 <= i < self.full.len()
    }

    /// The catalog with the selection at `at`.
    pub open spec fn selecting(self, at: int) -> CatalogView {
        CatalogView { selected: at, ..self }
    }

    /// The selection moved one up, from the first to the last.
    pub open spec fn moved_up(self) -> CatalogView {
        if self.shown.len() == 0 {
            self
        } else if self.selected == 0 {
            self.selecting(self.shown.len() - 1)
        } else {
            self.selecting(self.selected - 1)
        }
    }

    /// The selection moved one down, from the last to the first.
    pub open spec fn moved_down(self) -> CatalogView {
        if self.shown.len() == 0 {
            self
        } else if self.selected == self.shown.len() - 1 {
            self.selecting(0)
        } else {
            self.selecting(self.selected + 1)
        }
    }

    /// The selection on the first shown track.
    pub open spec fn at_top(self) -> CatalogView {
        self.selecting(0)
    }

    /// The selection on the last shown track.
    pub open spec fn at_bottom(self) -> CatalogView {
        if self.shown.len() == 0 {
            self
        } else {
            self.selecting(self.shown.len() - 1)
        }
    }

    /// Where the playing track stands in the shown list: the first shown
    /// track that equals it, or 0 if none plays or it is not shown.
    pub open spec fn playing_shown_at(self) -> int {
        match self.playing {
            Some(i) => match first_match(self.shown, self.full[i]@) {
                Some(k) => k,
                None => 0,
            },
            None => 0,
        }
    }

    /// The selection on the playing track.
    pub open spec fn at_playing(self) -> CatalogView {
        self.selecting(self.playing_shown_at())
    }

    /// The selected track, if anything is shown.
    pub open spec fn selection(self) -> Option<Music> {
        if self.shown.len() == 0 {
            None
        } else {
            Some(self.shown[self.selected])
        }
    }

    /// The whole collection shown again.
    pub open spec fn unfiltered(self) -> CatalogView {
        CatalogView { shown: self.full, ..self }
    }

    /// The playing cursor on the first track that equals `t`, or on none.
    pub open spec fn marked(self, t: TrackView) -> CatalogView {
        CatalogView { playing: first_match(self.full, t), ..self }
    }

    /// The position after the playing one in the collection, going round;
    /// the first where none plays.
    pub open spec fn following(self) -> int {
        match self.playing {
            Some(i) => if i + 1 < self.full.len() {
                i + 1
            } else {
                0
            },
            None => 0,
        }
    }

    /// The position before the playing one in the collection, going round;
    /// the last where none plays.
    pub open spec fn preceding(self) -> int {
        match self.playing {
            Some(i) => if i > 0 {
                i - 1
            } else {
                self.full.len() - 1
            },
            None => self.full.len() - 1,
        }
    }

    /// The track that a skip forward plays. None in an empty catalog.
    pub open spec fn next_track(self) -> Option<Music> {
        if self.full.len() == 0 {
            None
        } else {
            Some(self.full[self.following()])
        }
    }

    /// The track that a skip backward plays. None in an empty catalog.
    pub open spec fn previous_track(self) -> Option<Music> {
        if self.full.len() == 0 {
            None
        } else {
            Some(self.full[self.preceding()])
        }
    }

    /// `after` is this catalog put in the order `sorting` and all shown.
    /// Of `Shuffle`, which decides each comparison by lot, only this holds:
    /// no track is lost or added.
    pub open spec fn sorted_into(self, sorting: Option<Sorting>, after: CatalogView) -> bool {
        &&& after.full.to_multiset() == self.full.to_multiset()
        &&& after.full.len() == self.full.len()
        &&& after.shown == after.full
        &&& after.selected == self.selected
        &&& after.playing == self.playing
        &&& sorting is None ==> after.full == self.full
        &&& sorting matches Some(o) ==> o != Sorting::Shuffle ==> stably_sorted(
            TrackOrder { sorting: o },
            self.full,
            after.full,
        )
    }

    /// `after` is this catalog showing what the search text asks for. The
    /// selection stays if it is still on a shown track and goes to the
    /// first otherwise.
    pub open spec fn searched_into(self, buffer: Seq<char>, after: CatalogView) -> bool {
        &&& after.full == self.full
        &&& after.playing == self.playing
        &&& answers(buffer, self.full, after.shown)
        &&& after.selected == if self.selected < after.shown.len() {
            self.selected
        } else {
            0
        }
    }
}

/// Marking a track of the collection as playing and then going to the
/// playing track selects the first shown track that equals it, also where
/// only a part of the collection is shown. Where it is not shown, the
/// first track is selected.
pub proof fn lemma_jump_to_marked(c: CatalogView, t: TrackView)
    requires
        first_match(c.full, t) is Some,
    ensures
        c.marked(t).at_playing().selected == match first_match(c.shown, t) {
            Some(k) => k,
            None => 0,
        },
        c.marked(t).at_playing().shown == c.shown,
        c.marked(t).at_playing().full == c.full,
{
    let i = choose|i: int| is_first_match(c.full, t, i);
    assert(c.full[i]@ == t);
}

/// The catalog.
#[derive(Debug)]
pub struct Musics {
    /// The tracks that are shown.
    pub que: Vec<Music>,
    /// The position in `que` of the selected track.
    pub selected: usize,
    /// All tracks.
    pub full_que: Vec<Music>,
    /// The position in `full_que` of the track that plays, if one does.
    pub playing_index: Option<usize>,
}

impl View for Musics {
    type V = CatalogView;

    open spec fn view(&self) -> CatalogView {
        CatalogView {
            full: self.full_que@,
            shown: self.que@,
            selected: self.selected as int,
            playing: match self.playing_index {
                Some(i) => Some(i as int),
                None => None,
            },
        }
    }
}

impl Musics {
    pub open spec fn wf(&self) -> bool {
        self@.wf()
    }

    /// Whether the catalog is well formed.
    pub fn well_formed(&self) -> (r: bool)
        ensures
            r == self.wf(),
    {
        if self.que.len() > self.full_que.len() {
            return false;
        }
        if !(self.selected < self.que.len() || (self.que.len() == 0 && self.selected == 0)) {
            return false;
        }
        match self.playing_index {
            Some(i) => {
                if i >= self.full_que.len() {
                    return false;
                }
            },
            None => {},
        }
        let mut i: usize = 0;
        while i < self.que.len()
            invariant
                i <= self.que.len(),
                forall|k: int|
                    0 <= k < i ==> first_match(self.full_que@, (#[trigger] self.que@[k])@) is Some,
            decreases self.que.len() - i,
        {
            if find_track(&self.full_que, &self.que[i]).is_none() {
                return false;
            }
            i += 1;
        }
        true
    }

    /// The catalog of `que`, all of it shown, the first track selected and
    /// none playing.
    pub fn new(que: Vec<Music>) -> (r: Self)
        ensures
            r.wf(),
            r@ == (CatalogView { full: que@, shown: que@, selected: 0, playing: None }),
    {
        let full_que = clone_tracks(&que);
        let r = Musics { full_que, que, selected: 0, playing_index: None };
        proof {
            assert forall|i: int| 0 <= i < r.que@.len() implies first_match(
                r.full_que@,
                (#[trigger] r.que@[i])@,
            ) is Some by {
                lemma_first_match_found(r.full_que@, r.que@[i]@, i);
            }
        }
        r
    }

    /// The track to play next: the one after the playing track in the
    /// collection, whatever is shown.
    pub fn next_song(&self) -> (r: Option<&Music>)
        requires
            self.wf(),
        ensures
            match r {
                Some(m) => self@.next_track() == Some(*m),
                None => self@.next_track() is None,
            },
    {
        if self.full_que.len() == 0 {
            return None;
        }
        let at = match self.playing_index {
            Some(i) => if i + 1 < self.full_que.len() {
                i + 1
            } else {
                0
            },
            None => 0,
        };
        Some(&self.full_que[at])
    }

    /// The track to play when going back: the one before the playing track
    /// in the collection, whatever is shown.
    pub fn previous_song(&self) -> (r: Option<&Music>)
        requires
            self.wf(),
        ensures
            match r {
                Some(m) => self@.previous_track() == Some(*m),
                None => self@.previous_track() is None,
            },
    {
        if self.full_que.len() == 0 {
            return None;
        }
        let at = match self.playing_index {
            Some(i) => if i > 0 {
                i - 1
            } else {
                self.full_que.len() - 1
            },
            None => self.full_que.len() - 1,
        };
        Some(&self.full_que[at])
    }

    /// Puts the collection in the given order and shows all of it. Without
    /// an order the collection stays as it is.
    pub fn sort(&mut self, sorting: Option<Sorting>)
        requires
            old(self).wf(),
        ensures
            final(self).wf(),
            old(self)@.sorted_into(sorting, final(self)@),
    {
        match sorting {
            Some(o) => {
                let rule = TrackOrder { sorting: o };
                stable_sort(&mut self.full_que, &rule);
            },
            None => {},
        }
        self.que = clone_tracks(&self.full_que);
        proof {
            assert forall|i: int| 0 <= i < self.que@.len() implies first_match(
                self.full_que@,
                (#[trigger] self.que@[i])@,
            ) is Some by {
                lemma_first_match_found(self.full_que@, self.que@[i]@, i);
            }
        }
    }

    /// Shows what the search text asks for.
    pub fn search(&mut self, search_bufr: String)
        requires
            old(self).wf(),
        ensures
            final(self).wf(),
            old(self)@.searched_into(search_bufr@, final(self)@),
    {
        match parse_query(search_bufr.as_str()) {
            None => {
                self.que = clone_tracks(&self.full_que);
                proof {
                    assert forall|i: int| 0 <= i < self.que@.len() implies first_match(
                        self.full_que@,
                        (#[trigger] self.que@[i])@,
                    ) is Some by {
                        lemma_first_match_found(self.full_que@, self.que@[i]@, i);
                    }
                }
            },
            Some((criterion, text)) => {
                let top = criterion.search_best_n(text.as_str(), &self.full_que, SHOWN_AT_MOST);
                proof {
                    lemma_best_of_items(
                        text@,
                        self.full_que@,
                        criterion.text(),
                        SHOWN_AT_MOST as nat,
                        top@,
                    );
                }
                self.que = into_tracks(top);
                proof {
                    assert forall|i: int| 0 <= i < self.que@.len() implies first_match(
                        self.full_que@,
                        (#[trigger] self.que@[i])@,
                    ) is Some by {
                        assert(self.que@[i] == top@[i].0);
                        assert(self.full_que@.contains(top@[i].0));
                        let j = choose|j: int|
                            0 <= j < self.full_que@.len() && self.full_que@[j] == top@[i].0;
                        lemma_first_match_found(self.full_que@, self.que@[i]@, j);
                    }
                }
            },
        }
        if self.selected >= self.que.len() {
            self.selected = 0;
        }
    }

    /// Shows the whole collection again.
    pub fn reset_search(&mut self)
        requires
            old(self).wf(),
        ensures
            final(self).wf(),
            final(self)@ == old(self)@.unfiltered(),
    {
        self.que = clone_tracks(&self.full_que);
        proof {
            assert forall|i: int| 0 <= i < self.que@.len() implies first_match(
                self.full_que@,
                (#[trigger] self.que@[i])@,
            ) is Some by {
                lemma_first_match_found(self.full_que@, self.que@[i]@, i);
            }
        }
    }

    /// The selected track. Fails where nothing is shown.
    pub fn current_selection(&self) -> (r: Result<Music, CatalogError>)
        requires
            self.wf(),
        ensures
            match r {
                Ok(m) => self@.selection() == Some(m),
                Err(e) => self@.selection() is None && e == CatalogError::NotFound,
            },
    {
        if self.que.len() == 0 {
            Err(CatalogError::NotFound)
        } else {
            Ok(self.que[self.selected].clone())
        }
    }

    /// Sets the playing cursor on the first track of the collection that
    /// equals `track`, or on none if no track does.
    pub fn mark_playing(&mut self, track: &Music)
        requires
            old(self).wf(),
        ensures
            final(self).wf(),
            final(self)@ == old(self)@.marked(track@),
    {
        self.playing_index = find_track(&self.full_que, track);
    }

    /// Selects the track above, from the first going to the last.
    pub fn move_up(&mut self)
        requires
            old(self).wf(),
        ensures
            final(self).wf(),
            final(self)@ == old(self)@.moved_up(),
    {
        if self.que.len() == 0 {
        } else if self.selected == 0 {
            self.selected = self.que.len() - 1;
        } else {
            self.selected = self.selected - 1;
        }
    }

    /// Selects the track below, from the last going to the first.
    pub fn move_down(&mut self)
        requires
            old(self).wf(),
        ensures
            final(self).wf(),
            final(self)@ == old(self)@.moved_down(),
    {
        if self.que.len() == 0 {
        } else if self.selected == self.que.len() - 1 {
            self.selected = 0;
        } else {
            self.selected = self.selected + 1;
        }
    }

    /// Selects the first shown track.
    pub fn jump_top(&mut self)
        requires
            old(self).wf(),
        ensures
            final(self).wf(),
            final(self)@ == old(self)@.at_top(),
    {
        self.selected = 0;
    }

    /// Selects the last shown track.
    pub fn jump_bottom(&mut self)
        requires
            old(self).wf(),
        ensures
            final(self).wf(),
            final(self)@ == old(self)@.at_bottom(),
    {
        if self.que.len() > 0 {
            self.selected = self.que.len() - 1;
        }
    }

    /// Selects the playing track where it is shown, else the first track.
    pub fn jump_to_playing(&mut self)
        requires
            old(self).wf(),
        ensures
            final(self).wf(),
            final(self)@ == old(self)@.at_playing(),
    {
        let at = match self.playing_index {
            Some(i) => match find_track(&self.que, &self.full_que[i]) {
                Some(k) => k,
                None => 0,
            },
            None => 0,
        };
        self.selected = at;
    }

    /// Whether the selection can go `by` tracks up: it is on the first
    /// track, from which it goes to the last, or has `by` tracks above it.
    pub open spec fn can_scroll_up(&self, by: usize) -> bool {
        self.selected == 0 || self.selected >= by
    }

    /// Whether the selection can go `by` tracks down: it is on the last
    /// track, from which it goes to the first, or has `by` tracks below it.
    pub open spec fn can_scroll_down(&self, by: usize) -> bool {
        self.que@.len() == 0 || self.selected == self.que@.len() - 1 || self.selected + by
            < self.que@.len()
    }

    /// Moves the selection `by` tracks up, and from the first track to the
    /// last.
    pub fn scroll_up(&mut self, by: usize)
        requires
            old(self).wf(),
            old(self).can_scroll_up(by),
        ensures
            final(self).wf(),
            final(self)@ == if old(self).selected == 0 {
                old(self)@.at_bottom()
            } else {
                old(self)@.selecting(old(self).selected - by)
            },
    {
        if self.selected == 0 {
            self.jump_bottom();
        } else {
            self.selected = self.selected - by;
        }
    }

    /// Moves the selection `by` tracks down, and from the last track to the
    /// first.
    pub fn scroll_down(&mut self, by: usize)
        requires
            old(self).wf(),
            old(self).can_scroll_down(by),
        ensures
            final(self).wf(),
            final(self)@ == if old(self)@.shown.len() == 0 || old(self).selected == old(
                self,
            )@.shown.len() - 1 {
                old(self)@.at_top()
            } else {
                old(self)@.selecting(old(self).selected + by)
            },
    {
        let n = self.que.len();
        if n == 0 || self.selected == n - 1 {
            self.selected = 0;
        } else {
            self.selected = self.selected + by;
        }
    }

    /// Whether `scroll_up` may be called with `by`.
    pub fn scrolls_up(&self, by: usize) -> (r: bool)
        ensures
            r == self.can_scroll_up(by),
    {
        self.selected == 0 || self.selected >= by
    }

    /// Whether `scroll_down` may be called with `by`.
    pub fn scrolls_down(&self, by: usize) -> (r: bool)
        requires
            self.wf(),
        ensures
            r == self.can_scroll_down(by),
    {
        let n = self.que.len();
        n == 0 || self.selected == n - 1 || by < n - self.selected
    }
}

} // verus!
