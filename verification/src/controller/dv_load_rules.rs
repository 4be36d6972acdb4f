//! The rules of the load, on rows.
//!
//! The database applies these rules when it runs the statements of the load:
//! an empty hub gets its two ghost records, a hub gets the staged rows whose
//! hash key it does not hold, and a satellite gets the staged rows whose pair
//! of hash key and hash diff it does not hold. Here the rules are functions
//! on rows, so that what a load does to a table can be stated and proved.
//! Rows are only ever added: what a table holds, it keeps.

use crate::utility::text::{copy_text, str_eq, texts_view};
use vstd::prelude::*;
use vstd::string::StringExecFns;

verus! {

/// A row of a hub.
#[derive(Debug)]
pub struct HubRow {
    pub hash_key: String,
    pub load_ts: String,
    pub record_source: String,
    pub key_values: Vec<String>,
}

pub struct HubRowView {
    pub hash_key: Seq<char>,
    pub load_ts: Seq<char>,
    pub record_source: Seq<char>,
    pub key_values: Seq<Seq<char>>,
}

impl View for HubRow {
    type V = HubRowView;

    open spec fn view(&self) -> HubRowView {
        HubRowView {
            hash_key: self.hash_key@,
            load_ts: self.load_ts@,
            record_source: self.record_source@,
            key_values: texts_view(self.key_values@),
        }
    }
}

/// A row of a satellite.
#[derive(Debug)]
pub struct SatelliteRow {
    pub hash_key: String,
    pub hash_diff: String,
    pub load_ts: String,
    pub record_source: String,
    pub values: Vec<String>,
}

pub struct SatelliteRowView {
    pub hash_key: Seq<char>,
    pub hash_diff: Seq<char>,
    pub load_ts: Seq<char>,
    pub record_source: Seq<char>,
    pub values: Seq<Seq<char>>,
}

impl View for SatelliteRow {
    type V = SatelliteRowView;

    open spec fn view(&self) -> SatelliteRowView {
        SatelliteRowView {
            hash_key: self.hash_key@,
            hash_diff: self.hash_diff@,
            load_ts: self.load_ts@,
            record_source: self.record_source@,
            values: texts_view(self.values@),
        }
    }
}

pub open spec fn hub_rows_view(rows: Seq<HubRow>) -> Seq<HubRowView> {
    Seq::new(rows.len(), |i: int| rows[i]@)
}

pub open spec fn satellite_rows_view(rows: Seq<SatelliteRow>) -> Seq<SatelliteRowView> {
    Seq::new(rows.len(), |i: int| rows[i]@)
}

/// The values of a row that is digested, joined by commas: what the digest
/// is taken of.
pub open spec fn comma_joined(values: Seq<Seq<char>>) -> Seq<char>
    decreases values.len(),
{
    if values.len() == 0 {
        Seq::empty()
    } else if values.len() == 1 {
        values[0]
    } else {
        comma_joined(values.drop_last()) + seq![','] + values.last()
    }
}

/// Writes out what the digest of a row is taken of: its values in their
/// order, joined by commas.
pub fn digest_input(values: &Vec<String>) -> (text: String)
    ensures
        text@ == comma_joined(texts_view(values@)),
{
    let ghost all = texts_view(values@);
    let mut text = String::new();
    let mut i: usize = 0;
    assert(all.take(0) =~= Seq::empty());
    while i < values.len()
        invariant
            i <= values.len(),
            all == texts_view(values@),
            text@ == comma_joined(all.take(i as int)),
        decreases values.len() - i,
    {
        proof {
            assert(all.take(i + 1).drop_last() =~= all.take(i as int));
            assert(all.take(i + 1).last() == values@[i as int]@);
            assert(all.take(i + 1)[0] == all[0]);
            reveal_strlit(",");
            assert(","@ =~= seq![',']);
        }
        if i > 0 {
            text.append(",");
            text.append(values[i].as_str());
        } else {
            text = copy_text(&values[i]);
        }
        i += 1;
    }
    assert(all.take(values.len() as int) =~= all);
    text
}

/// No value holds a comma.
pub open spec fn comma_free(values: Seq<Seq<char>>) -> bool {
    forall|i: int, k: int|
        0 <= i < values.len() && 0 <= k < values[i].len() ==> #[trigger] values[i][k] != ','
}

/// Hash stability: as many values without commas are digested alike only if
/// they are the same values in the same order.
pub proof fn lemma_digest_input_tells_values_apart(a: Seq<Seq<char>>, b: Seq<Seq<char>>)
    requires
        a.len() == b.len(),
        comma_free(a),
        comma_free(b),
        comma_joined(a) == comma_joined(b),
    ensures
        a == b,
    decreases a.len(),
{
    if a.len() == 0 {
        assert(a =~= b);
    } else if a.len() == 1 {
        assert(a =~= b);
    } else {
        let x = comma_joined(a.drop_last());
        let y = comma_joined(b.drop_last());
        let la = a.last();
        let lb = b.last();
        let whole = comma_joined(a);
        assert(whole == x + seq![','] + la);
        assert(whole == y + seq![','] + lb);
        if la.len() < lb.len() {
            let at = whole.len() - la.len() - 1;
            assert((x + seq![','] + la)[at] == ',');
            assert((y + seq![','] + lb)[at] == lb[at - y.len() - 1]);
            assert(false);
        }
        if lb.len() < la.len() {
            let at = whole.len() - lb.len() - 1;
            assert((y + seq![','] + lb)[at] == ',');
            assert((x + seq![','] + la)[at] == la[at - x.len() - 1]);
            assert(false);
        }
        assert(la =~= lb) by {
            assert forall|k: int| 0 <= k < la.len() implies la[k] == lb[k] by {
                assert((x + seq![','] + la)[x.len() + 1 + k] == la[k]);
                assert((y + seq![','] + lb)[y.len() + 1 + k] == lb[k]);
            }
        }
        assert(x =~= y) by {
            assert forall|k: int| 0 <= k < x.len() implies x[k] == y[k] by {
                assert((x + seq![','] + la)[k] == x[k]);
                assert((y + seq![','] + lb)[k] == y[k]);
            }
        }
        lemma_digest_input_tells_values_apart(a.drop_last(), b.drop_last());
        assert(a =~= a.drop_last().push(la));
        assert(b =~= b.drop_last().push(lb));
    }
}

/// One ghost record: every key part holds `value`.
pub open spec fn ghost_record(hash_key: Seq<char>, value: Seq<char>, key_parts: nat) -> HubRowView {
    HubRowView {
        hash_key,
        load_ts: "0001-01-01"@,
        record_source: "SYSTEM"@,
        key_values: Seq::new(key_parts, |i: int| value),
    }
}

/// The ghost records that a hub gets: the two of them while it is empty,
/// none once it holds a row.
pub open spec fn ghost_records_for(
    hub: Seq<HubRowView>,
    key_parts: nat,
    unknown_hash: Seq<char>,
    not_applicable_hash: Seq<char>,
) -> Seq<HubRowView> {
    if hub.len() > 0 {
        Seq::empty()
    } else {
        seq![
            ghost_record(unknown_hash, "-1"@, key_parts),
            ghost_record(not_applicable_hash, "-2"@, key_parts),
        ]
    }
}

fn ghost_row(hash_key: &str, value: &str, key_parts: usize) -> (row: HubRow)
    ensures
        row@ == ghost_record(hash_key@, value@, key_parts as nat),
{
    let mut key_values: Vec<String> = Vec::new();
    let mut i: usize = 0;
    while i < key_parts
        invariant
            i <= key_parts,
            key_values.len() == i,
            forall|j: int| 0 <= j < i ==> (#[trigger] key_values@[j])@ == value@,
        decreases key_parts - i,
    {
        key_values.push(value.to_owned());
        i += 1;
    }
    let row = HubRow {
        hash_key: hash_key.to_owned(),
        load_ts: String::from_str("0001-01-01"),
        record_source: String::from_str("SYSTEM"),
        key_values,
    };
    assert(row@.key_values =~= ghost_record(hash_key@, value@, key_parts as nat).key_values);
    row
}

/// The ghost records that the hub gets: `-1` for the unknown key and `-2`
/// for the key that does not apply, under the hash keys given for them, while
/// the hub is empty, and none once it holds a row.
pub fn ghost_records(
    hub: &Vec<HubRow>,
    key_parts: usize,
    unknown_hash: &str,
    not_applicable_hash: &str,
) -> (rows: Vec<HubRow>)
    ensures
        hub_rows_view(rows@) == ghost_records_for(
            hub_rows_view(hub@),
            key_parts as nat,
            unknown_hash@,
            not_applicable_hash@,
        ),
{
    let mut rows: Vec<HubRow> = Vec::new();
    if hub.len() == 0 {
        rows.push(ghost_row(unknown_hash, "-1", key_parts));
        rows.push(ghost_row(not_applicable_hash, "-2", key_parts));
    }
    assert(hub_rows_view(rows@) =~= ghost_records_for(
        hub_rows_view(hub@),
        key_parts as nat,
        unknown_hash@,
        not_applicable_hash@,
    ));
    rows
}

/// Ghost-record idempotence: a hub that holds a row gets no ghost record,
/// and so a hub that was initialized gets none again.
pub proof fn lemma_ghost_records_once(
    hub: Seq<HubRowView>,
    key_parts: nat,
    unknown_hash: Seq<char>,
    not_applicable_hash: Seq<char>,
)
    ensures
        hub.len() > 0 ==> ghost_records_for(hub, key_parts, unknown_hash, not_applicable_hash).len()
            == 0,
        ghost_records_for(
            hub + ghost_records_for(hub, key_parts, unknown_hash, not_applicable_hash),
            key_parts,
            unknown_hash,
            not_applicable_hash,
        ).len() == 0,
{
}

/// Some row of the hub has the hash key.
pub open spec fn hub_holds(hub: Seq<HubRowView>, hash_key: Seq<char>) -> bool {
    exists|i: int| 0 <= i < hub.len() && (#[trigger] hub[i]).hash_key == hash_key
}

pub open spec fn new_to_hub(hub: Seq<HubRowView>) -> spec_fn(HubRowView) -> bool {
    |row: HubRowView| !hub_holds(hub, row.hash_key)
}

/// The rows that a load adds to a hub: the staged rows whose hash key the
/// hub does not hold, in their order.
pub open spec fn hub_rows_to_insert(hub: Seq<HubRowView>, staged: Seq<HubRowView>) -> Seq<
    HubRowView,
> {
    staged.filter(new_to_hub(hub))
}

/// Whether some row of the hub has the hash key.
pub fn hub_has_key(hub: &Vec<HubRow>, hash_key: &str) -> (held: bool)
    ensures
        held == hub_holds(hub_rows_view(hub@), hash_key@),
{
    let mut i: usize = 0;
    while i < hub.len()
        invariant
            i <= hub.len(),
            forall|e: int| 0 <= e < i ==> (#[trigger] hub_rows_view(hub@)[e]).hash_key != hash_key@,
        decreases hub.len() - i,
    {
        if str_eq(hub[i].hash_key.as_str(), hash_key) {
            assert(hub_rows_view(hub@)[i as int].hash_key == hash_key@);
            return true;
        }
        assert(hub_rows_view(hub@)[i as int].hash_key != hash_key@);
        i += 1;
    }
    false
}

fn copy_texts(texts: &Vec<String>) -> (copy: Vec<String>)
    ensures
        texts_view(copy@) == texts_view(texts@),
{
    let mut copy: Vec<String> = Vec::new();
    let mut i: usize = 0;
    while i < texts.len()
        invariant
            i <= texts.len(),
            copy.len() == i,
            forall|j: int| 0 <= j < i ==> (#[trigger] copy@[j])@ == texts@[j]@,
        decreases texts.len() - i,
    {
        copy.push(copy_text(&texts[i]));
        i += 1;
    }
    assert(texts_view(copy@) =~= texts_view(texts@));
    copy
}

/// The rows that a load adds to the hub: the staged rows whose hash key the
/// hub does not hold, in their order.
pub fn new_hub_rows(hub: &Vec<HubRow>, staged: &Vec<HubRow>) -> (rows: Vec<HubRow>)
    ensures
        hub_rows_view(rows@) == hub_rows_to_insert(hub_rows_view(hub@), hub_rows_view(staged@)),
{
    let ghost held = hub_rows_view(hub@);
    let ghost all = hub_rows_view(staged@);
    let mut rows: Vec<HubRow> = Vec::new();
    let mut i: usize = 0;
    assert(all.take(0) =~= Seq::empty());
    while i < staged.len()
        invariant
            i <= staged.len(),
            held == hub_rows_view(hub@),
            all == hub_rows_view(staged@),
            hub_rows_view(rows@) == all.take(i as int).filter(new_to_hub(held)),
        decreases staged.len() - i,
    {
        let row = &staged[i];
        proof {
            assert(all.take(i + 1) =~= all.take(i as int).push(row@));
            all.take(i as int).lemma_filter_push(row@, new_to_hub(held));
        }
        if !hub_has_key(hub, row.hash_key.as_str()) {
            let ghost before = hub_rows_view(rows@);
            let copy = HubRow {
                hash_key: copy_text(&row.hash_key),
                load_ts: copy_text(&row.load_ts),
                record_source: copy_text(&row.record_source),
                key_values: copy_texts(&row.key_values),
            };
            rows.push(copy);
            assert(hub_rows_view(rows@) =~= before.push(row@));
        }
        i += 1;
    }
    assert(all.take(staged.len() as int) =~= all);
    rows
}

/// Idempotent load: once a hub was loaded from staged rows, a second load
/// from the same rows adds none.
pub proof fn lemma_hub_load_idempotent(hub: Seq<HubRowView>, staged: Seq<HubRowView>)
    ensures
        hub_rows_to_insert(hub + hub_rows_to_insert(hub, staged), staged).len() == 0,
{
    let added = hub_rows_to_insert(hub, staged);
    let loaded = hub + added;
    assert forall|i: int| 0 <= i < staged.len() implies !new_to_hub(loaded)(
        #[trigger] staged[i],
    ) by {
        if hub_holds(hub, staged[i].hash_key) {
            let w = choose|w: int| 0 <= w < hub.len() && hub[w].hash_key == staged[i].hash_key;
            assert(loaded[w].hash_key == staged[i].hash_key);
        } else {
            staged.lemma_filter_contains(new_to_hub(hub), i);
            let w = choose|w: int| 0 <= w < added.len() && added[w] == staged[i];
            assert(loaded[hub.len() + w].hash_key == staged[i].hash_key);
        }
    }
    staged.lemma_all_neg_filter_empty(new_to_hub(loaded));
}

/// Some row of the satellite has the hash key together with the hash diff.
pub open spec fn satellite_holds(
    satellite: Seq<SatelliteRowView>,
    hash_key: Seq<char>,
    hash_diff: Seq<char>,
) -> bool {
    exists|i: int|
        0 <= i < satellite.len() && (#[trigger] satellite[i]).hash_key == hash_key
            && satellite[i].hash_diff == hash_diff
}

pub open spec fn new_to_satellite(satellite: Seq<SatelliteRowView>) -> spec_fn(
    SatelliteRowView,
) -> bool {
    |row: SatelliteRowView| !satellite_holds(satellite, row.hash_key, row.hash_diff)
}

/// The rows that a load adds to a satellite: the staged rows whose pair of
/// hash key and hash diff the satellite does not hold, in their order.
pub open spec fn satellite_rows_to_insert(
    satellite: Seq<SatelliteRowView>,
    staged: Seq<SatelliteRowView>,
) -> Seq<SatelliteRowView> {
    staged.filter(new_to_satellite(satellite))
}

/// Whether some row of the satellite has the hash key together with the
/// hash diff.
pub fn satellite_has_pair(satellite: &Vec<SatelliteRow>, hash_key: &str, hash_diff: &str) -> (held:
    bool)
    ensures
        held == satellite_holds(satellite_rows_view(satellite@), hash_key@, hash_diff@),
{
    let mut i: usize = 0;
    while i < satellite.len()
        invariant
            i <= satellite.len(),
            forall|e: int|
                0 <= e < i ==> !((#[trigger] satellite_rows_view(satellite@)[e]).hash_key
                    == hash_key@ && satellite_rows_view(satellite@)[e].hash_diff == hash_diff@),
        decreases satellite.len() - i,
    {
        if str_eq(satellite[i].hash_key.as_str(), hash_key) && str_eq(
            satellite[i].hash_diff.as_str(),
            hash_diff,
        ) {
            assert(satellite_rows_view(satellite@)[i as int].hash_key == hash_key@);
            return true;
        }
        assert(!(satellite_rows_view(satellite@)[i as int].hash_key == hash_key@
            && satellite_rows_view(satellite@)[i as int].hash_diff == hash_diff@));
        i += 1;
    }
    false
}

/// The rows that a load adds to the satellite: the staged rows whose pair
/// of hash key and hash diff the satellite does not hold, in their order.
pub fn new_satellite_rows(satellite: &Vec<SatelliteRow>, staged: &Vec<SatelliteRow>) -> (rows: Vec<
    SatelliteRow,
>)
    ensures
        satellite_rows_view(rows@) == satellite_rows_to_insert(
            satellite_rows_view(satellite@),
            satellite_rows_view(staged@),
        ),
{
    let ghost held = satellite_rows_view(satellite@);
    let ghost all = satellite_rows_view(staged@);
    let mut rows: Vec<SatelliteRow> = Vec::new();
    let mut i: usize = 0;
    assert(all.take(0) =~= Seq::empty());
    while i < staged.len()
        invariant
            i <= staged.len(),
            held == satellite_rows_view(satellite@),
            all == satellite_rows_view(staged@),
            satellite_rows_view(rows@) == all.take(i as int).filter(new_to_satellite(held)),
        decreases staged.len() - i,
    {
        let row = &staged[i];
        proof {
            assert(all.take(i + 1) =~= all.take(i as int).push(row@));
            all.take(i as int).lemma_filter_push(row@, new_to_satellite(held));
        }
        if !satellite_has_pair(satellite, row.hash_key.as_str(), row.hash_diff.as_str()) {
            let ghost before = satellite_rows_view(rows@);
            let copy = SatelliteRow {
                hash_key: copy_text(&row.hash_key),
                hash_diff: copy_text(&row.hash_diff),
                load_ts: copy_text(&row.load_ts),
                record_source: copy_text(&row.record_source),
                values: copy_texts(&row.values),
            };
            rows.push(copy);
            assert(satellite_rows_view(rows@) =~= before.push(row@));
        }
        i += 1;
    }
    assert(all.take(staged.len() as int) =~= all);
    rows
}

/// Idempotent load: once a satellite was loaded from staged rows, a second
/// load from the same rows adds none.
pub proof fn lemma_satellite_load_idempotent(
    satellite: Seq<SatelliteRowView>,
    staged: Seq<SatelliteRowView>,
)
    ensures
        satellite_rows_to_insert(
            satellite + satellite_rows_to_insert(satellite, staged),
            staged,
        ).len() == 0,
{
    let added = satellite_rows_to_insert(satellite, staged);
    let loaded = satellite + added;
    assert forall|i: int| 0 <= i < staged.len() implies !new_to_satellite(loaded)(
        #[trigger] staged[i],
    ) by {
        if satellite_holds(satellite, staged[i].hash_key, staged[i].hash_diff) {
            let w = choose|w: int|
                0 <= w < satellite.len() && satellite[w].hash_key == staged[i].hash_key
                    && satellite[w].hash_diff == staged[i].hash_diff;
            assert(loaded[w].hash_key == staged[i].hash_key);
        } else {
            staged.lemma_filter_contains(new_to_satellite(satellite), i);
            let w = choose|w: int| 0 <= w < added.len() && added[w] == staged[i];
            assert(loaded[satellite.len() + w].hash_key == staged[i].hash_key);
        }
    }
    staged.lemma_all_neg_filter_empty(new_to_satellite(loaded));
}

/// Change tracking: where the satellite holds a row of a hash key and a
/// staged row has that hash key with a hash diff that the satellite does not
/// hold for it, the load adds the staged row as a new row, and the row that
/// was there stays as it was.
pub proof fn lemma_change_adds_row(
    satellite: Seq<SatelliteRowView>,
    staged: Seq<SatelliteRowView>,
    held: int,
    changed: int,
)
    requires
        0 <= held < satellite.len(),
        0 <= changed < staged.len(),
        staged[changed].hash_key == satellite[held].hash_key,
        staged[changed].hash_diff != satellite[held].hash_diff,
        !satellite_holds(satellite, staged[changed].hash_key, staged[changed].hash_diff),
    ensures
        satellite_rows_to_insert(satellite, staged).contains(staged[changed]),
        (satellite + satellite_rows_to_insert(satellite, staged))[held] == satellite[held],
        (satellite + satellite_rows_to_insert(satellite, staged)).contains(staged[changed]),
        (satellite + satellite_rows_to_insert(satellite, staged)).len() > satellite.len(),
{
    let added = satellite_rows_to_insert(satellite, staged);
    staged.lemma_filter_contains(new_to_satellite(satellite), changed);
    let w = choose|w: int| 0 <= w < added.len() && added[w] == staged[changed];
    assert((satellite + added)[satellite.len() + w] == staged[changed]);
}

} // verus!
