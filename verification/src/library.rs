//! Lists of tracks as the screens put them together.

use vstd::prelude::*;
use std::collections::HashSet;
use crate::models::{PlaybackRecord, Track};
use crate::sequences::{first_n, lemma_filter_of_prefix, lemma_filter_one_more};

verus! {

/// The home screen shows this many recommendations at most.
pub const HOME_RECOMMENDATIONS_LIMIT: usize = 6;

/// The suggestions take this many liked tracks at most.
pub const SUGGESTIONS_LIKES_LIMIT: usize = 30;

/// The suggestions take this many of the user's own tracks at most.
pub const SUGGESTIONS_USER_TRACKS_LIMIT: usize = 20;

/// The ids of `tracks`, in their order.
pub open spec fn track_ids(tracks: Seq<Track>) -> Seq<u64> {
    tracks.map_values(|t: Track| t.id)
}

/// True if one of `tracks` has the id `id`.
pub open spec fn has_id(tracks: Seq<Track>, id: u64) -> bool {
    track_ids(tracks).contains(id)
}

/// The test that holds of the tracks whose id none of `known` has.
pub open spec fn unknown_to(known: Seq<Track>) -> spec_fn(Track) -> bool {
    |t: Track| !has_id(known, t.id)
}

/// The test that holds of the tracks that are marked streamable and have a
/// stream address.
pub open spec fn streamable_with_url() -> spec_fn(Track) -> bool {
    |t: Track| t.streamable == Some(true) && t.stream_url is Some
}

/// `recs` filled up to `limit` tracks with tracks of `history` that are not
/// among them; cut to `limit` if they are more.
pub open spec fn filled_up(recs: Seq<Track>, history: Seq<Track>, limit: nat) -> Seq<Track> {
    if recs.len() < limit {
        recs + first_n(history.filter(unknown_to(recs)), (limit - recs.len()) as nat)
    } else {
        recs.take(limit as int)
    }
}

/// `acc` with the tracks of `items` added one after the other, each unless
/// a track of its id is there already.
pub open spec fn with_unseen(acc: Seq<Track>, items: Seq<Track>) -> Seq<Track>
    decreases items.len(),
{
    if items.len() == 0 {
        acc
    } else {
        let before = with_unseen(acc, items.drop_last());
        if has_id(before, items.last().id) {
            before
        } else {
            before.push(items.last())
        }
    }
}

/// The suggestions: the recommended tracks, then up to 30 liked tracks,
/// then up to 20 of the user's own, each id once.
pub open spec fn merged_suggestions(
    recommended: Seq<Track>,
    likes: Seq<Track>,
    user_tracks: Seq<Track>,
) -> Seq<Track> {
    with_unseen(
        with_unseen(with_unseen(Seq::empty(), recommended), first_n(likes, 30)),
        first_n(user_tracks, 20),
    )
}

/// True if no two of `tracks` have the same id.
pub open spec fn distinct_ids(tracks: Seq<Track>) -> bool {
    forall|i: int, j: int|
        0 <= i < tracks.len() && 0 <= j < tracks.len() && i != j ==> tracks[i].id != tracks[j].id
}

/// The ids of `tracks` with one more track pushed.
pub proof fn lemma_ids_of_push(tracks: Seq<Track>, track: Track)
    ensures
        track_ids(tracks.push(track)) == track_ids(tracks).push(track.id),
        track_ids(tracks.push(track)).to_set() == track_ids(tracks).to_set().insert(track.id),
{
    assert(track_ids(tracks.push(track)) =~= track_ids(tracks).push(track.id));
    track_ids(tracks).lemma_push_to_set_commute(track.id);
}

/// The ids of `tracks` as a set.
pub fn id_set(tracks: &Vec<Track>) -> (ids: HashSet<u64>)
    ensures
        ids@ == track_ids(tracks@).to_set(),
{
    let mut ids: HashSet<u64> = HashSet::new();
    let mut i: usize = 0;
    assert(track_ids(tracks@.take(0)).to_set() =~= Set::<u64>::empty());
    while i < tracks.len()
        invariant
            i <= tracks@.len(),
            ids@ == track_ids(tracks@.take(i as int)).to_set(),
        decreases tracks@.len() - i,
    {
        proof {
            assert(tracks@.take(i + 1) =~= tracks@.take(i as int).push(tracks@[i as int]));
            lemma_ids_of_push(tracks@.take(i as int), tracks@[i as int]);
        }
        ids.insert(tracks[i].id);
        i = i + 1;
    }
    assert(tracks@.take(tracks@.len() as int) =~= tracks@);
    ids
}

/// Fills `recs` up to `limit` tracks with copies of tracks of `history`
/// whose ids are not among them, in the order of `history`, and cuts the
/// list to `limit` tracks.
pub fn fill_recommendations(recs: Vec<Track>, history: &Vec<Track>, limit: usize) -> (out: Vec<Track>)
    ensures
        out@ == filled_up(recs@, history@, limit as nat),
        out@.len() <= limit,
{
    let mut out = recs;
    if out.len() >= limit {
        out.truncate(limit);
        return out;
    }
    let known = id_set(&out);
    let needed: usize = limit - out.len();
    let ghost start = out@;
    let ghost pred = unknown_to(start);
    let mut taken: usize = 0;
    let mut i: usize = 0;
    proof {
        reveal(Seq::filter);
        assert(history@.take(0) =~= Seq::<Track>::empty());
        assert(start + Seq::<Track>::empty() =~= start);
    }
    while i < history.len() && taken < needed
        invariant
            i <= history@.len(),
            taken <= needed,
            start.len() + needed == limit,
            pred == unknown_to(start),
            known@ == track_ids(start).to_set(),
            taken == history@.take(i as int).filter(pred).len(),
            out@ == start + history@.take(i as int).filter(pred),
        decreases history@.len() - i,
    {
        proof {
            lemma_filter_one_more(history@, i as int, pred);
        }
        let ghost before = out@;
        if !known.contains(&history[i].id) {
            out.push(history[i].duplicate());
            taken = taken + 1;
            assert(out@ =~= start + history@.take(i as int).filter(pred).push(history@[i as int]));
        }
        i = i + 1;
    }
    proof {
        let kept = history@.take(i as int).filter(pred);
        lemma_filter_of_prefix(history@, i as int, pred);
        if i == history@.len() {
            assert(history@.take(i as int) =~= history@);
        } else {
            assert(taken == needed);
            assert(kept == history@.filter(pred).take(needed as int));
            if history@.filter(pred).len() <= needed {
                assert(history@.filter(pred).take(needed as int) =~= history@.filter(pred));
            }
        }
    }
    out
}

fn append_unseen(acc: &mut Vec<Track>, seen: &mut HashSet<u64>, items: &Vec<Track>, limit: usize)
    requires
        old(seen)@ == track_ids(old(acc)@).to_set(),
    ensures
        final(acc)@ == with_unseen(old(acc)@, first_n(items@, limit as nat)),
        final(seen)@ == track_ids(final(acc)@).to_set(),
{
    let count = if items.len() <= limit {
        items.len()
    } else {
        limit
    };
    let ghost start = acc@;
    let ghost chosen = first_n(items@, limit as nat);
    let mut i: usize = 0;
    assert(chosen.take(0) =~= Seq::<Track>::empty());
    while i < count
        invariant
            i <= count,
            count == chosen.len(),
            count <= items@.len(),
            forall|k: int| 0 <= k < count ==> chosen[k] == items@[k],
            acc@ == with_unseen(start, chosen.take(i as int)),
            seen@ == track_ids(acc@).to_set(),
        decreases count - i,
    {
        proof {
            assert(chosen.take(i + 1).drop_last() =~= chosen.take(i as int));
            assert(chosen.take(i + 1).last() == items@[i as int]);
            lemma_ids_of_push(acc@, items@[i as int]);
        }
        if seen.insert(items[i].id) {
            acc.push(items[i].duplicate());
        } else {
            assert(seen@ =~= track_ids(acc@).to_set());
        }
        i = i + 1;
    }
    assert(chosen.take(count as int) =~= chosen);
}

/// Puts the suggestions together from the recommended tracks, the liked
/// tracks and the user's own tracks. A track that is in more than one of
/// the lists, or in one of them twice, is taken where it comes first.
pub fn merge_suggestions(
    recommended: &Vec<Track>,
    likes: &Vec<Track>,
    user_tracks: &Vec<Track>,
) -> (out: Vec<Track>)
    ensures
        out@ == merged_suggestions(recommended@, likes@, user_tracks@),
        distinct_ids(out@),
{
    let mut out: Vec<Track> = Vec::new();
    let mut seen: HashSet<u64> = HashSet::new();
    assert(track_ids(out@).to_set() =~= Set::<u64>::empty());
    let all = recommended.len();
    append_unseen(&mut out, &mut seen, recommended, all);
    append_unseen(&mut out, &mut seen, likes, SUGGESTIONS_LIKES_LIMIT);
    append_unseen(&mut out, &mut seen, user_tracks, SUGGESTIONS_USER_TRACKS_LIMIT);
    proof {
        lemma_unseen_keeps_ids_distinct(Seq::empty(), recommended@);
        let first = with_unseen(Seq::empty(), recommended@);
        lemma_unseen_keeps_ids_distinct(first, first_n(likes@, 30));
        let second = with_unseen(first, first_n(likes@, 30));
        lemma_unseen_keeps_ids_distinct(second, first_n(user_tracks@, 20));
    }
    out
}

/// Adding tracks that are not there yet keeps the ids apart, and keeps
/// what was there at the start of the list.
pub proof fn lemma_unseen_keeps_ids_distinct(acc: Seq<Track>, items: Seq<Track>)
    requires
        distinct_ids(acc),
    ensures
        distinct_ids(with_unseen(acc, items)),
        acc.len() <= with_unseen(acc, items).len() <= acc.len() + items.len(),
        with_unseen(acc, items).take(acc.len() as int) == acc,
        forall|k: int| 0 <= k < items.len() ==> has_id(with_unseen(acc, items), #[trigger] items[k].id),
    decreases items.len(),
{
    if items.len() > 0 {
        let rest = items.drop_last();
        lemma_unseen_keeps_ids_distinct(acc, rest);
        let before = with_unseen(acc, rest);
        let after = with_unseen(acc, items);
        let last = items.last();
        if has_id(before, last.id) {
            assert(after == before);
        } else {
            assert(after == before.push(last));
            assert forall|i: int, j: int|
                0 <= i < after.len() && 0 <= j < after.len() && i != j implies after[i].id
                != after[j].id by {
                if i < before.len() {
                    assert(track_ids(before)[i] == before[i].id);
                }
                if j < before.len() {
                    assert(track_ids(before)[j] == before[j].id);
                }
            }
            assert(after.take(acc.len() as int) =~= before.take(acc.len() as int));
        }
        assert forall|k: int| 0 <= k < items.len() implies has_id(after, #[trigger] items[k].id) by {
            if k < rest.len() {
                assert(rest[k] == items[k]);
                assert(has_id(before, rest[k].id));
                let at = choose|at: int| 0 <= at < before.len() && track_ids(before)[at] == rest[k].id;
                assert(track_ids(after)[at] == after[at].id);
                assert(after[at] == before[at]);
                assert(track_ids(before)[at] == before[at].id);
            } else {
                if has_id(before, last.id) {
                } else {
                    assert(track_ids(after)[before.len() as int] == last.id);
                }
            }
        }
    } else {
        assert(with_unseen(acc, items).take(acc.len() as int) =~= acc);
    }
}

/// The test that holds of the plays of tracks whose id none of `known`
/// has.
pub open spec fn record_unknown_to(known: Seq<Track>) -> spec_fn(PlaybackRecord) -> bool {
    |r: PlaybackRecord| !has_id(known, r.track_id)
}

/// The tracks that stand for `records`, in their order.
pub open spec fn tracks_of(records: Seq<PlaybackRecord>) -> Seq<Track> {
    records.map_values(|r: PlaybackRecord| Track::of_record(r))
}

/// `tracks` filled up to `limit` with tracks that stand for plays of
/// `records` whose tracks are not among them. A list of `limit` tracks or
/// more stays as it is.
pub open spec fn filled_from_records(
    tracks: Seq<Track>,
    records: Seq<PlaybackRecord>,
    limit: nat,
) -> Seq<Track> {
    if tracks.len() < limit {
        tracks + tracks_of(
            first_n(records.filter(record_unknown_to(tracks)), (limit - tracks.len()) as nat),
        )
    } else {
        tracks
    }
}

/// The recommendations drawn from the history: the tracks that stand for
/// the plays of `records` whose tracks are not among `recently_played`, up
/// to `limit` of them, and one even if `limit` is zero.
pub open spec fn recommended_from(
    records: Seq<PlaybackRecord>,
    recently_played: Seq<Track>,
    limit: nat,
) -> Seq<Track> {
    tracks_of(
        first_n(
            records.filter(record_unknown_to(recently_played)),
            if limit == 0 {
                1
            } else {
                limit
            },
        ),
    )
}

/// Appends to `out` the tracks that stand for the first `needed` plays of
/// `records` whose track ids are not in `known`.
fn append_unknown_records(
    out: &mut Vec<Track>,
    records: &Vec<PlaybackRecord>,
    known: &HashSet<u64>,
    needed: usize,
    Ghost(known_tracks): Ghost<Seq<Track>>,
)
    requires
        known@ == track_ids(known_tracks).to_set(),
        needed > 0,
    ensures
        final(out)@ == old(out)@ + tracks_of(
            first_n(records@.filter(record_unknown_to(known_tracks)), needed as nat),
        ),
{
    let ghost start = out@;
    let ghost pred = record_unknown_to(known_tracks);
    let mut taken: usize = 0;
    let mut i: usize = 0;
    proof {
        reveal(Seq::filter);
        assert(records@.take(0) =~= Seq::<PlaybackRecord>::empty());
        assert(start + tracks_of(Seq::<PlaybackRecord>::empty()) =~= start);
    }
    while i < records.len() && taken < needed
        invariant
            i <= records@.len(),
            taken <= needed,
            pred == record_unknown_to(known_tracks),
            known@ == track_ids(known_tracks).to_set(),
            taken == records@.take(i as int).filter(pred).len(),
            out@ == start + tracks_of(records@.take(i as int).filter(pred)),
        decreases records@.len() - i,
    {
        proof {
            lemma_filter_one_more(records@, i as int, pred);
        }
        if !known.contains(&records[i].track_id) {
            out.push(Track::from_record(&records[i]));
            taken = taken + 1;
            assert(out@ =~= start + tracks_of(
                records@.take(i as int).filter(pred).push(records@[i as int]),
            ));
        }
        i = i + 1;
    }
    proof {
        let kept = records@.take(i as int).filter(pred);
        lemma_filter_of_prefix(records@, i as int, pred);
        if i == records@.len() {
            assert(records@.take(i as int) =~= records@);
        } else {
            assert(kept == records@.filter(pred).take(needed as int));
            if records@.filter(pred).len() <= needed {
                assert(records@.filter(pred).take(needed as int) =~= records@.filter(pred));
            }
        }
    }
}

/// Fills `tracks` up to `limit` with tracks of the history that are not
/// among them, in the order of `records`.
pub fn fill_from_records(tracks: Vec<Track>, records: &Vec<PlaybackRecord>, limit: usize) -> (out:
    Vec<Track>)
    ensures
        out@ == filled_from_records(tracks@, records@, limit as nat),
{
    let mut out = tracks;
    if out.len() >= limit {
        return out;
    }
    let known = id_set(&out);
    let needed: usize = limit - out.len();
    let ghost start = out@;
    append_unknown_records(&mut out, records, &known, needed, Ghost(start));
    out
}

/// Draws recommendations from the history: the plays of `records` whose
/// tracks are not among `recently_played`, in their order, until there are
/// `limit` of them.
pub fn recommend_from_history(
    records: &Vec<PlaybackRecord>,
    recently_played: &Vec<Track>,
    limit: usize,
) -> (out: Vec<Track>)
    ensures
        out@ == recommended_from(records@, recently_played@, limit as nat),
{
    let known = id_set(recently_played);
    let mut out: Vec<Track> = Vec::new();
    let needed: usize = if limit == 0 {
        1
    } else {
        limit
    };
    let ghost wanted = tracks_of(
        first_n(records@.filter(record_unknown_to(recently_played@)), needed as nat),
    );
    append_unknown_records(&mut out, records, &known, needed, Ghost(recently_played@));
    assert(Seq::<Track>::empty() + wanted =~= wanted);
    out
}

/// Keeps the tracks that are marked streamable and have a stream address,
/// in their order.
pub fn keep_streamable_with_url(tracks: Vec<Track>) -> (kept: Vec<Track>)
    ensures
        kept@ == tracks@.filter(streamable_with_url()),
{
    let ghost pred = streamable_with_url();
    let ghost all = tracks@;
    let mut kept: Vec<Track> = Vec::new();
    proof {
        reveal(Seq::filter);
        assert(all.take(0) =~= Seq::<Track>::empty());
    }
    for track in it: tracks
        invariant
            it.seq() == all,
            pred == streamable_with_url(),
            kept@ == all.take(it.index() as int).filter(pred),
    {
        proof {
            lemma_filter_one_more(all, it.index() as int, pred);
        }
        assert(track == all[it.index() as int]);
        let streamable = match track.streamable {
            Some(s) => s,
            None => false,
        };
        if streamable && track.stream_url.is_some() {
            kept.push(track);
        }
    }
    proof {
        assert(all.take(all.len() as int) =~= all);
    }
    kept
}

} // verus!
