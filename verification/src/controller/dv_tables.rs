//! The tables of a Data Vault: one hub for each business key, and one
//! satellite for each pair of orbit and sensitivity.
//!
//! A satellite is keyed by its orbit and its sensitivity, not by the business
//! key that brought it: descriptors of several business keys that share both
//! are columns of one satellite.

use crate::model::dv_schema::{
    business_keys_view, BusinessKey, BusinessKeyPartLinkView, BusinessKeyView, DescriptorView,
};
use crate::utility::text::{copy_text, str_eq, texts_view};
use vstd::prelude::*;
use vstd::string::StringExecFns;

verus! {

/// The hub of a business key: its hash key, its load columns, and one text
/// column for each part of the key.
#[derive(Debug)]
pub struct HubTable {
    pub business_key_name: String,
    pub key_columns: Vec<String>,
}

pub struct HubTableView {
    pub business_key_name: Seq<char>,
    pub key_columns: Seq<Seq<char>>,
}

impl View for HubTable {
    type V = HubTableView;

    open spec fn view(&self) -> HubTableView {
        HubTableView {
            business_key_name: self.business_key_name@,
            key_columns: texts_view(self.key_columns@),
        }
    }
}

/// A descriptor column of a satellite, with the type of its source column.
#[derive(Debug)]
pub struct SatelliteColumn {
    pub name: String,
    pub column_type: String,
}

pub struct SatelliteColumnView {
    pub name: Seq<char>,
    pub column_type: Seq<char>,
}

impl View for SatelliteColumn {
    type V = SatelliteColumnView;

    open spec fn view(&self) -> SatelliteColumnView {
        SatelliteColumnView { name: self.name@, column_type: self.column_type@ }
    }
}

/// A satellite. `owner` is the position of the business key whose descriptor
/// came first, and `hub_name` is that business key's name.
#[derive(Debug)]
pub struct SatelliteTable {
    pub orbit: String,
    pub is_sensitive: bool,
    pub owner: usize,
    pub hub_name: String,
    pub columns: Vec<SatelliteColumn>,
}

pub struct SatelliteTableView {
    pub orbit: Seq<char>,
    pub is_sensitive: bool,
    pub owner: int,
    pub hub_name: Seq<char>,
    pub columns: Seq<SatelliteColumnView>,
}

impl View for SatelliteTable {
    type V = SatelliteTableView;

    open spec fn view(&self) -> SatelliteTableView {
        SatelliteTableView {
            orbit: self.orbit@,
            is_sensitive: self.is_sensitive,
            owner: self.owner as int,
            hub_name: self.hub_name@,
            columns: satellite_columns_view(self.columns@),
        }
    }
}

/// The hubs and satellites of one Data Vault schema.
#[derive(Debug)]
pub struct TableDefinitions {
    pub dw_schema: String,
    pub hubs: Vec<HubTable>,
    pub satellites: Vec<SatelliteTable>,
}

pub struct TableDefinitionsView {
    pub dw_schema: Seq<char>,
    pub hubs: Seq<HubTableView>,
    pub satellites: Seq<SatelliteTableView>,
}

impl View for TableDefinitions {
    type V = TableDefinitionsView;

    open spec fn view(&self) -> TableDefinitionsView {
        TableDefinitionsView {
            dw_schema: self.dw_schema@,
            hubs: hubs_view(self.hubs@),
            satellites: satellites_view(self.satellites@),
        }
    }
}

pub open spec fn satellite_columns_view(columns: Seq<SatelliteColumn>) -> Seq<
    SatelliteColumnView,
> {
    Seq::new(columns.len(), |i: int| columns[i]@)
}

pub open spec fn hubs_view(hubs: Seq<HubTable>) -> Seq<HubTableView> {
    Seq::new(hubs.len(), |i: int| hubs[i]@)
}

pub open spec fn satellites_view(satellites: Seq<SatelliteTable>) -> Seq<SatelliteTableView> {
    Seq::new(satellites.len(), |i: int| satellites[i]@)
}

/// The key of a satellite: its orbit and its sensitivity.
pub struct SatelliteKey {
    pub orbit: Seq<char>,
    pub is_sensitive: bool,
}

/// A descriptor together with the business key it was found under.
pub struct Orbiting {
    pub owner: int,
    pub hub_name: Seq<char>,
    pub descriptor: DescriptorView,
}

impl Orbiting {
    /// The key of the satellite that the descriptor belongs to.
    pub open spec fn key(self) -> SatelliteKey {
        SatelliteKey { orbit: self.descriptor.orbit, is_sensitive: self.descriptor.is_sensitive }
    }

    /// The satellite column of the descriptor: its alias, with the type name
    /// of its source column as it stands.
    pub open spec fn column(self) -> SatelliteColumnView {
        SatelliteColumnView {
            name: self.descriptor.descriptor_link.alias,
            column_type: self.descriptor.descriptor_link.source_column->0.column_type_name,
        }
    }
}

/// The descriptors of one business key, in their order.
pub open spec fn orbiting_of(key: BusinessKeyView, owner: int) -> Seq<Orbiting> {
    Seq::new(
        key.descriptors.len(),
        |j: int| Orbiting { owner, hub_name: key.name, descriptor: key.descriptors[j] },
    )
}

/// The descriptors of all business keys, business key by business key.
pub open spec fn all_orbiting(keys: Seq<BusinessKeyView>) -> Seq<Orbiting>
    decreases keys.len(),
{
    if keys.len() == 0 {
        Seq::empty()
    } else {
        all_orbiting(keys.drop_last()) + orbiting_of(keys.last(), keys.len() - 1)
    }
}

pub open spec fn with_key(key: SatelliteKey) -> spec_fn(Orbiting) -> bool {
    |o: Orbiting| o.key() == key
}

pub open spec fn column_of() -> spec_fn(Orbiting) -> SatelliteColumnView {
    |o: Orbiting| o.column()
}

/// The satellite keys of the descriptors, each once, in the order in which
/// they first occur.
pub open spec fn satellite_keys(orbiting: Seq<Orbiting>) -> Seq<SatelliteKey>
    decreases orbiting.len(),
{
    if orbiting.len() == 0 {
        Seq::empty()
    } else {
        let earlier = satellite_keys(orbiting.drop_last());
        if earlier.contains(orbiting.last().key()) {
            earlier
        } else {
            earlier.push(orbiting.last().key())
        }
    }
}

/// The satellite of a key: a column for every descriptor with that key, in
/// their order, under the business key of the first of them.
pub open spec fn satellite_of(orbiting: Seq<Orbiting>, key: SatelliteKey) -> SatelliteTableView {
    let members = orbiting.filter(with_key(key));
    SatelliteTableView {
        orbit: key.orbit,
        is_sensitive: key.is_sensitive,
        owner: members.first().owner,
        hub_name: members.first().hub_name,
        columns: members.map_values(column_of()),
    }
}

pub open spec fn satellites_of(orbiting: Seq<Orbiting>) -> Seq<SatelliteTableView> {
    Seq::new(
        satellite_keys(orbiting).len(),
        |i: int| satellite_of(orbiting, satellite_keys(orbiting)[i]),
    )
}

pub open spec fn alias_of() -> spec_fn(BusinessKeyPartLinkView) -> Seq<char> {
    |link: BusinessKeyPartLinkView| link.alias
}

pub open spec fn hub_of(key: BusinessKeyView) -> HubTableView {
    HubTableView {
        business_key_name: key.name,
        key_columns: key.business_key_part_links.map_values(alias_of()),
    }
}

/// The tables of a schema: the hubs in the order of the business keys, the
/// satellites in the order in which their keys first occur.
pub open spec fn tables_of(dw_schema: Seq<char>, keys: Seq<BusinessKeyView>)
    -> TableDefinitionsView {
    TableDefinitionsView {
        dw_schema,
        hubs: Seq::new(keys.len(), |i: int| hub_of(keys[i])),
        satellites: satellites_of(all_orbiting(keys)),
    }
}

/// Every descriptor has a source column.
pub open spec fn all_sourced(keys: Seq<BusinessKeyView>) -> bool {
    forall|i: int, j: int|
        0 <= i < keys.len() && 0 <= j < keys[i].descriptors.len() ==> (
        #[trigger] keys[i].descriptors[j]).descriptor_link.source_column is Some
}

/// A key is listed exactly if a descriptor has it.
pub proof fn lemma_key_listed(orbiting: Seq<Orbiting>, key: SatelliteKey)
    ensures
        satellite_keys(orbiting).contains(key) <==> orbiting.filter(with_key(key)).len() > 0,
    decreases orbiting.len(),
{
    if orbiting.len() == 0 {
        orbiting.lemma_filter_len(with_key(key));
    } else {
        let earlier = orbiting.drop_last();
        let last = orbiting.last();
        lemma_key_listed(earlier, key);
        assert(orbiting =~= earlier.push(last));
        earlier.lemma_filter_push(last, with_key(key));
        let listed = satellite_keys(earlier);
        if !listed.contains(last.key()) {
            assert(listed.push(last.key())[listed.len() as int] == last.key());
            if listed.contains(key) {
                let w = choose|w: int| 0 <= w < listed.len() && listed[w] == key;
                assert(listed.push(last.key())[w] == key);
            }
        }
    }
}

/// No satellite key is listed twice.
pub proof fn lemma_keys_distinct(orbiting: Seq<Orbiting>)
    ensures
        satellite_keys(orbiting).no_duplicates(),
    decreases orbiting.len(),
{
    if orbiting.len() > 0 {
        lemma_keys_distinct(orbiting.drop_last());
    }
}

impl SatelliteTableView {
    pub open spec fn key(self) -> SatelliteKey {
        SatelliteKey { orbit: self.orbit, is_sensitive: self.is_sensitive }
    }
}

/// The satellite that a descriptor opens when no earlier descriptor has its
/// key.
pub open spec fn opened_by(o: Orbiting) -> SatelliteTableView {
    SatelliteTableView {
        orbit: o.descriptor.orbit,
        is_sensitive: o.descriptor.is_sensitive,
        owner: o.owner,
        hub_name: o.hub_name,
        columns: seq![o.column()],
    }
}

/// A satellite with one more column.
pub open spec fn extended_by(satellite: SatelliteTableView, o: Orbiting) -> SatelliteTableView {
    SatelliteTableView { columns: satellite.columns.push(o.column()), ..satellite }
}

/// A descriptor whose key is listed adds a column to the satellite of that
/// key and leaves the other satellites as they are.
pub proof fn lemma_descriptor_joins(orbiting: Seq<Orbiting>, o: Orbiting, p: int)
    requires
        0 <= p < satellite_keys(orbiting).len(),
        satellite_keys(orbiting)[p] == o.key(),
    ensures
        satellites_of(orbiting.push(o)) == satellites_of(orbiting).update(
            p,
            extended_by(satellites_of(orbiting)[p], o),
        ),
{
    let keys = satellite_keys(orbiting);
    let grown = orbiting.push(o);
    assert(grown.drop_last() =~= orbiting);
    assert(keys.contains(o.key()));
    assert(satellite_keys(grown) == keys);
    lemma_keys_distinct(orbiting);
    lemma_key_listed(orbiting, o.key());
    let before = satellites_of(orbiting);
    let after = satellites_of(grown);
    assert forall|q: int| 0 <= q < keys.len() implies #[trigger] after[q] == before.update(
        p,
        extended_by(before[p], o),
    )[q] by {
        orbiting.lemma_filter_push(o, with_key(keys[q]));
        let members = orbiting.filter(with_key(keys[q]));
        if q == p {
            assert(members.push(o).first() == members.first());
            assert(members.push(o).map_values(column_of()) =~= members.map_values(
                column_of(),
            ).push(o.column()));
        }
    }
    assert(after =~= before.update(p, extended_by(before[p], o)));
}

/// A descriptor whose key is not listed opens a satellite behind the others.
pub proof fn lemma_descriptor_opens(orbiting: Seq<Orbiting>, o: Orbiting)
    requires
        !satellite_keys(orbiting).contains(o.key()),
    ensures
        satellites_of(orbiting.push(o)) == satellites_of(orbiting).push(opened_by(o)),
{
    let keys = satellite_keys(orbiting);
    let grown = orbiting.push(o);
    assert(grown.drop_last() =~= orbiting);
    assert(satellite_keys(grown) == keys.push(o.key()));
    lemma_key_listed(orbiting, o.key());
    let before = satellites_of(orbiting);
    let after = satellites_of(grown);
    assert forall|q: int| 0 <= q < keys.len() + 1 implies #[trigger] after[q] == before.push(
        opened_by(o),
    )[q] by {
        let key = satellite_keys(grown)[q];
        orbiting.lemma_filter_push(o, with_key(key));
        let members = orbiting.filter(with_key(key));
        if q == keys.len() {
            assert(members.len() == 0);
            assert(members.push(o).map_values(column_of()) =~= seq![o.column()]);
        } else {
            assert(keys[q] == key);
            assert(keys.contains(key));
        }
    }
    assert(after =~= before.push(opened_by(o)));
}

/// The hub of a business key.
pub fn hub_for(key: &BusinessKey) -> (hub: HubTable)
    ensures
        hub@ == hub_of(key@),
{
    let mut key_columns: Vec<String> = Vec::new();
    let mut i: usize = 0;
    while i < key.business_key_part_links.len()
        invariant
            i <= key.business_key_part_links.len(),
            key_columns.len() == i,
            forall|j: int|
                0 <= j < i ==> (#[trigger] key_columns@[j])@
                    == key.business_key_part_links@[j].alias@,
        decreases key.business_key_part_links.len() - i,
    {
        key_columns.push(copy_text(&key.business_key_part_links[i].alias));
        i += 1;
    }
    let hub = HubTable { business_key_name: copy_text(&key.name), key_columns };
    assert(hub@.key_columns =~= hub_of(key@).key_columns);
    hub
}

/// The position of the satellite with the given key, if there is one.
pub fn find_satellite(satellites: &Vec<SatelliteTable>, orbit: &str, is_sensitive: bool) -> (found:
    Option<usize>)
    ensures
        match found {
            Some(p) => p < satellites.len() && satellites@[p as int]@.key() == (SatelliteKey {
                orbit: orbit@,
                is_sensitive,
            }),
            None => forall|q: int|
                0 <= q < satellites.len() ==> (#[trigger] satellites@[q])@.key() != (SatelliteKey {
                    orbit: orbit@,
                    is_sensitive,
                }),
        },
{
    let mut q: usize = 0;
    while q < satellites.len()
        invariant
            q <= satellites.len(),
            forall|r: int|
                0 <= r < q ==> (#[trigger] satellites@[r])@.key() != (SatelliteKey {
                    orbit: orbit@,
                    is_sensitive,
                }),
        decreases satellites.len() - q,
    {
        if satellites[q].is_sensitive == is_sensitive && str_eq(
            satellites[q].orbit.as_str(),
            orbit,
        ) {
            return Some(q);
        }
        q += 1;
    }
    None
}

/// A descriptor that has no source column, by the position of its business
/// key and its own position under it.
#[derive(Debug)]
pub struct MissingSourceColumn {
    pub business_key: usize,
    pub descriptor: usize,
}

/// The descriptor at `(i, j)` has no source column, and every descriptor
/// before it has one.
pub open spec fn first_unsourced(keys: Seq<BusinessKeyView>, i: int, j: int) -> bool {
    &&& 0 <= i < keys.len()
    &&& 0 <= j < keys[i].descriptors.len()
    &&& keys[i].descriptors[j].descriptor_link.source_column is None
    &&& forall|a: int, b: int|
        0 <= a < keys.len() && 0 <= b < keys[a].descriptors.len() && (a < i || (a == i && b < j))
            ==> (#[trigger] keys[a].descriptors[b]).descriptor_link.source_column is Some
}

/// Adds the descriptors of one business key to the satellites.
fn add_descriptors(
    satellites: &mut Vec<SatelliteTable>,
    key: &BusinessKey,
    owner: usize,
    Ghost(earlier): Ghost<Seq<Orbiting>>,
) -> (outcome: Result<(), usize>)
    requires
        satellites_view(old(satellites)@) == satellites_of(earlier),
    ensures
        match outcome {
            Ok(()) => {
                &&& forall|j: int|
                    0 <= j < key@.descriptors.len() ==> (
                    #[trigger] key@.descriptors[j]).descriptor_link.source_column is Some
                &&& satellites_view(final(satellites)@) == satellites_of(
                    earlier + orbiting_of(key@, owner as int),
                )
            },
            Err(j) => {
                &&& 0 <= j < key@.descriptors.len()
                &&& key@.descriptors[j as int].descriptor_link.source_column is None
                &&& forall|b: int|
                    0 <= b < j ==> (
                    #[trigger] key@.descriptors[b]).descriptor_link.source_column is Some
            },
        },
{
    let ghost mine = orbiting_of(key@, owner as int);
    let mut j: usize = 0;
    assert(earlier + mine.take(0) =~= earlier);
    while j < key.descriptors.len()
        invariant
            j <= key.descriptors.len(),
            mine == orbiting_of(key@, owner as int),
            satellites_view(satellites@) == satellites_of(earlier + mine.take(j as int)),
            forall|b: int|
                0 <= b < j ==> (
                #[trigger] key@.descriptors[b]).descriptor_link.source_column is Some,
        decreases key.descriptors.len() - j,
    {
        let descriptor = &key.descriptors[j];
        let ghost seen = earlier + mine.take(j as int);
        let ghost o = mine[j as int];
        proof {
            assert(earlier + mine.take(j + 1) =~= seen.push(o));
            assert(o.descriptor == descriptor@);
            assert(key@.descriptors[j as int] == descriptor@);
        }
        let column = match &descriptor.descriptor_link.source_column {
            Some(source) => SatelliteColumn {
                name: copy_text(&descriptor.descriptor_link.alias),
                column_type: copy_text(&source.column_type_name),
            },
            None => {
                return Err(j);
            },
        };
        assert(column@ == o.column());
        let found = find_satellite(satellites, descriptor.orbit.as_str(), descriptor.is_sensitive);
        let ghost before = satellites_view(satellites@);
        proof {
            assert(before.len() == satellite_keys(seen).len());
            assert forall|q: int| 0 <= q < before.len() implies satellite_keys(seen)[q]
                == satellites@[q]@.key() by {
                assert(before[q] == satellites@[q]@);
            }
        }
        match found {
            Some(p) => {
                proof {
                    lemma_descriptor_joins(seen, o, p as int);
                }
                satellites[p].columns.push(column);
                assert(satellites_view(satellites@) =~= before.update(
                    p as int,
                    extended_by(before[p as int], o),
                )) by {
                    assert(satellites@[p as int]@.columns =~= before[p as int].columns.push(
                        o.column(),
                    ));
                }
            },
            None => {
                proof {
                    if satellite_keys(seen).contains(o.key()) {
                        let w = choose|w: int|
                            0 <= w < satellite_keys(seen).len() && satellite_keys(seen)[w]
                                == o.key();
                        assert(satellites@[w]@.key() == o.key());
                    }
                    lemma_descriptor_opens(seen, o);
                }
                let mut columns: Vec<SatelliteColumn> = Vec::new();
                columns.push(column);
                let opened = SatelliteTable {
                    orbit: copy_text(&descriptor.orbit),
                    is_sensitive: descriptor.is_sensitive,
                    owner,
                    hub_name: copy_text(&key.name),
                    columns,
                };
                assert(opened@.columns =~= seq![o.column()]);
                satellites.push(opened);
                assert(satellites_view(satellites@) =~= before.push(opened_by(o)));
            },
        }
        j += 1;
    }
    assert(mine.take(key.descriptors.len() as int) =~= mine);
    Ok(())
}

/// Lays out the tables of a schema. Succeeds exactly if every descriptor has
/// a source column; else it names the first descriptor that has none.
pub fn define_tables(dw_schema: &str, keys: &Vec<BusinessKey>) -> (outcome: Result<
    TableDefinitions,
    MissingSourceColumn,
>)
    ensures
        match outcome {
            Ok(tables) => all_sourced(business_keys_view(keys@)) && tables@ == tables_of(
                dw_schema@,
                business_keys_view(keys@),
            ),
            Err(e) => first_unsourced(
                business_keys_view(keys@),
                e.business_key as int,
                e.descriptor as int,
            ),
        },
{
    let ghost all = business_keys_view(keys@);
    let mut hubs: Vec<HubTable> = Vec::new();
    let mut satellites: Vec<SatelliteTable> = Vec::new();
    let mut i: usize = 0;
    assert(all.take(0) =~= Seq::empty());
    assert(satellites_view(satellites@) =~= satellites_of(Seq::empty()));
    while i < keys.len()
        invariant
            i <= keys.len(),
            all == business_keys_view(keys@),
            hubs.len() == i,
            forall|a: int| 0 <= a < i ==> (#[trigger] hubs@[a])@ == hub_of(all[a]),
            satellites_view(satellites@) == satellites_of(all_orbiting(all.take(i as int))),
            forall|a: int, b: int|
                0 <= a < i && 0 <= b < all[a].descriptors.len() ==> (
                #[trigger] all[a].descriptors[b]).descriptor_link.source_column is Some,
        decreases keys.len() - i,
    {
        proof {
            assert(all.take(i + 1).drop_last() =~= all.take(i as int));
            assert(all.take(i + 1).last() == keys@[i as int]@);
        }
        hubs.push(hub_for(&keys[i]));
        let added = add_descriptors(
            &mut satellites,
            &keys[i],
            i,
            Ghost(all_orbiting(all.take(i as int))),
        );
        match added {
            Ok(()) => {},
            Err(j) => {
                return Err(MissingSourceColumn { business_key: i, descriptor: j });
            },
        }
        i += 1;
    }
    assert(all.take(keys.len() as int) =~= all);
    let tables = TableDefinitions { dw_schema: dw_schema.to_owned(), hubs, satellites };
    assert(tables@.hubs =~= tables_of(dw_schema@, all).hubs);
    Ok(tables)
}

/// The name under which a satellite's table and hash-diff column go: the
/// orbit, marked where the satellite is sensitive.
pub open spec fn satellite_label(orbit: Seq<char>, is_sensitive: bool) -> Seq<char> {
    if is_sensitive {
        orbit + "_sensitive"@
    } else {
        orbit
    }
}

/// The key columns of a hub, each a line of its own behind a comma.
pub open spec fn key_columns_text(columns: Seq<Seq<char>>) -> Seq<char>
    decreases columns.len(),
{
    if columns.len() == 0 {
        Seq::empty()
    } else {
        key_columns_text(columns.drop_last()) + ",\n    "@ + columns.last() + "_bk VARCHAR"@
    }
}

/// The statement that creates a hub.
pub open spec fn hub_text(dw_schema: Seq<char>, hub: HubTableView) -> Seq<char> {
    "CREATE TABLE "@ + dw_schema + ".hub_"@ + hub.business_key_name + " (\n    hub_"@
        + hub.business_key_name
        + "_hk VARCHAR NOT NULL,\n    load_ts TIMESTAMP WITHOUT TIME ZONE NOT NULL,\n    record_source VARCHAR NOT NULL"@
        + key_columns_text(hub.key_columns) + "\n);\n"@
}

/// The descriptor columns of a satellite, each a line of its own behind a
/// comma.
pub open spec fn descriptor_columns_text(columns: Seq<SatelliteColumnView>) -> Seq<char>
    decreases columns.len(),
{
    if columns.len() == 0 {
        Seq::empty()
    } else {
        descriptor_columns_text(columns.drop_last()) + ",\n    "@ + columns.last().name + " "@
            + columns.last().column_type
    }
}

/// The statement that creates a satellite.
pub open spec fn satellite_text(dw_schema: Seq<char>, satellite: SatelliteTableView) -> Seq<char> {
    "CREATE TABLE "@ + dw_schema + ".sat_"@ + satellite_label(
        satellite.orbit,
        satellite.is_sensitive,
    ) + " (\n    hub_"@ + satellite.hub_name
        + "_hk VARCHAR NOT NULL,\n    load_ts TIMESTAMP WITHOUT TIME ZONE NOT NULL,\n    record_source VARCHAR NOT NULL,\n    sat_"@
        + satellite_label(satellite.orbit, satellite.is_sensitive) + "_hd VARCHAR NOT NULL"@
        + descriptor_columns_text(satellite.columns) + "\n);\n"@
}

/// The statements of the satellites that one business key opened.
pub open spec fn owned_satellites_text(
    dw_schema: Seq<char>,
    satellites: Seq<SatelliteTableView>,
    owner: int,
) -> Seq<char>
    decreases satellites.len(),
{
    if satellites.len() == 0 {
        Seq::empty()
    } else {
        let earlier = owned_satellites_text(dw_schema, satellites.drop_last(), owner);
        if satellites.last().owner == owner {
            earlier + satellite_text(dw_schema, satellites.last())
        } else {
            earlier
        }
    }
}

/// The statements of the first `n` hubs, each followed by those of the
/// satellites that its business key opened.
pub open spec fn tables_text_upto(tables: TableDefinitionsView, n: int) -> Seq<char>
    decreases n,
{
    if n <= 0 {
        Seq::empty()
    } else {
        tables_text_upto(tables, n - 1) + hub_text(tables.dw_schema, tables.hubs[n - 1])
            + owned_satellites_text(tables.dw_schema, tables.satellites, n - 1)
    }
}

/// The batch that creates all tables, in the order of the business keys.
pub open spec fn tables_text(tables: TableDefinitionsView) -> Seq<char> {
    tables_text_upto(tables, tables.hubs.len() as int)
}

fn key_columns_sql(columns: &Vec<String>) -> (sql: String)
    ensures
        sql@ == key_columns_text(texts_view(columns@)),
{
    let ghost all = texts_view(columns@);
    let mut sql = String::new();
    let mut i: usize = 0;
    assert(all.take(0) =~= Seq::empty());
    while i < columns.len()
        invariant
            i <= columns.len(),
            all == texts_view(columns@),
            sql@ == key_columns_text(all.take(i as int)),
        decreases columns.len() - i,
    {
        proof {
            assert(all.take(i + 1).drop_last() =~= all.take(i as int));
            assert(all.take(i + 1).last() == columns@[i as int]@);
        }
        sql.append(",\n    ");
        sql.append(columns[i].as_str());
        sql.append("_bk VARCHAR");
        i += 1;
    }
    assert(all.take(columns.len() as int) =~= all);
    sql
}

fn descriptor_columns_sql(columns: &Vec<SatelliteColumn>) -> (sql: String)
    ensures
        sql@ == descriptor_columns_text(satellite_columns_view(columns@)),
{
    let ghost all = satellite_columns_view(columns@);
    let mut sql = String::new();
    let mut i: usize = 0;
    assert(all.take(0) =~= Seq::empty());
    while i < columns.len()
        invariant
            i <= columns.len(),
            all == satellite_columns_view(columns@),
            sql@ == descriptor_columns_text(all.take(i as int)),
        decreases columns.len() - i,
    {
        proof {
            assert(all.take(i + 1).drop_last() =~= all.take(i as int));
            assert(all.take(i + 1).last() == columns@[i as int]@);
        }
        sql.append(",\n    ");
        sql.append(columns[i].name.as_str());
        sql.append(" ");
        sql.append(columns[i].column_type.as_str());
        i += 1;
    }
    assert(all.take(columns.len() as int) =~= all);
    sql
}

/// The label of a satellite as text.
pub fn satellite_label_text(orbit: &str, is_sensitive: bool) -> (label: String)
    ensures
        label@ == satellite_label(orbit@, is_sensitive),
{
    let mut label = orbit.to_owned();
    if is_sensitive {
        label.append("_sensitive");
    }
    label
}

impl HubTable {
    /// The statement that creates the hub in the given schema.
    pub fn create_statement(&self, dw_schema: &str) -> (sql: String)
        ensures
            sql@ == hub_text(dw_schema@, self@),
    {
        let columns = key_columns_sql(&self.key_columns);
        let mut sql = String::from_str("CREATE TABLE ");
        sql.append(dw_schema);
        sql.append(".hub_");
        sql.append(self.business_key_name.as_str());
        sql.append(" (\n    hub_");
        sql.append(self.business_key_name.as_str());
        sql.append(
            "_hk VARCHAR NOT NULL,\n    load_ts TIMESTAMP WITHOUT TIME ZONE NOT NULL,\n    record_source VARCHAR NOT NULL",
        );
        sql.append(columns.as_str());
        sql.append("\n);\n");
        sql
    }
}

impl SatelliteTable {
    /// The statement that creates the satellite in the given schema.
    pub fn create_statement(&self, dw_schema: &str) -> (sql: String)
        ensures
            sql@ == satellite_text(dw_schema@, self@),
    {
        let label = satellite_label_text(self.orbit.as_str(), self.is_sensitive);
        let columns = descriptor_columns_sql(&self.columns);
        let mut sql = String::from_str("CREATE TABLE ");
        sql.append(dw_schema);
        sql.append(".sat_");
        sql.append(label.as_str());
        sql.append(" (\n    hub_");
        sql.append(self.hub_name.as_str());
        sql.append(
            "_hk VARCHAR NOT NULL,\n    load_ts TIMESTAMP WITHOUT TIME ZONE NOT NULL,\n    record_source VARCHAR NOT NULL,\n    sat_",
        );
        sql.append(label.as_str());
        sql.append("_hd VARCHAR NOT NULL");
        sql.append(columns.as_str());
        sql.append("\n);\n");
        sql
    }
}

impl TableDefinitions {
    /// The statements of the satellites that the business key at `owner`
    /// opened.
    fn owned_satellites_sql(&self, owner: usize) -> (sql: String)
        ensures
            sql@ == owned_satellites_text(self@.dw_schema, self@.satellites, owner as int),
    {
        let ghost all = satellites_view(self.satellites@);
        let mut sql = String::new();
        let mut s: usize = 0;
        assert(all.take(0) =~= Seq::empty());
        while s < self.satellites.len()
            invariant
                s <= self.satellites.len(),
                all == satellites_view(self.satellites@),
                sql@ == owned_satellites_text(self.dw_schema@, all.take(s as int), owner as int),
            decreases self.satellites.len() - s,
        {
            proof {
                assert(all.take(s + 1).drop_last() =~= all.take(s as int));
                assert(all.take(s + 1).last() == self.satellites@[s as int]@);
            }
            if self.satellites[s].owner == owner {
                let statement = self.satellites[s].create_statement(self.dw_schema.as_str());
                sql.append(statement.as_str());
            }
            s += 1;
        }
        assert(all.take(self.satellites.len() as int) =~= all);
        sql
    }

    /// The batch that creates all tables: each hub, followed by the
    /// satellites that its business key opened.
    pub fn create_statements(&self) -> (sql: String)
        ensures
            sql@ == tables_text(self@),
    {
        let mut sql = String::new();
        let mut i: usize = 0;
        while i < self.hubs.len()
            invariant
                i <= self.hubs.len(),
                sql@ == tables_text_upto(self@, i as int),
            decreases self.hubs.len() - i,
        {
            let hub = self.hubs[i].create_statement(self.dw_schema.as_str());
            let owned = self.owned_satellites_sql(i);
            sql.append(hub.as_str());
            sql.append(owned.as_str());
            i += 1;
        }
        sql
    }
}

/// The tables of one business key and the batch that creates them.
pub fn build_sql_from_business_key(dw_schema: &String, business_key: &BusinessKey) -> (outcome:
    Result<String, MissingSourceColumn>)
    ensures
        match outcome {
            Ok(sql) => all_sourced(seq![business_key@]) && sql@ == tables_text(
                tables_of(dw_schema@, seq![business_key@]),
            ),
            Err(e) => first_unsourced(
                seq![business_key@],
                e.business_key as int,
                e.descriptor as int,
            ),
        },
{
    let ghost alone = seq![business_key@];
    let mut hubs: Vec<HubTable> = Vec::new();
    let mut satellites: Vec<SatelliteTable> = Vec::new();
    hubs.push(hub_for(business_key));
    proof {
        reveal_with_fuel(all_orbiting, 2);
        assert(alone.drop_last() =~= Seq::empty());
        assert(all_orbiting(alone) =~= Seq::<Orbiting>::empty() + orbiting_of(business_key@, 0));
        assert(satellites_view(satellites@) =~= satellites_of(Seq::empty()));
    }
    let added = add_descriptors(&mut satellites, business_key, 0, Ghost(Seq::empty()));
    match added {
        Ok(()) => {
            let tables = TableDefinitions { dw_schema: copy_text(dw_schema), hubs, satellites };
            assert(tables@.hubs =~= tables_of(dw_schema@, alone).hubs);
            Ok(tables.create_statements())
        },
        Err(j) => Err(MissingSourceColumn { business_key: 0, descriptor: j }),
    }
}

/// The descriptor at `j` of the business key at `i`, as it orbits.
pub open spec fn orbiting_at(keys: Seq<BusinessKeyView>, i: int, j: int) -> Orbiting {
    Orbiting { owner: i, hub_name: keys[i].name, descriptor: keys[i].descriptors[j] }
}

/// Every descriptor of every business key is among the orbiting ones.
pub proof fn lemma_orbiting_listed(keys: Seq<BusinessKeyView>, i: int, j: int)
    requires
        0 <= i < keys.len(),
        0 <= j < keys[i].descriptors.len(),
    ensures
        all_orbiting(keys).contains(orbiting_at(keys, i, j)),
    decreases keys.len(),
{
    let earlier = all_orbiting(keys.drop_last());
    let last = orbiting_of(keys.last(), keys.len() - 1);
    if i == keys.len() - 1 {
        assert(last[j] == orbiting_at(keys, i, j));
        assert((earlier + last)[earlier.len() + j] == orbiting_at(keys, i, j));
    } else {
        lemma_orbiting_listed(keys.drop_last(), i, j);
        let w = choose|w: int|
            0 <= w < earlier.len() && earlier[w] == orbiting_at(keys.drop_last(), i, j);
        assert((earlier + last)[w] == orbiting_at(keys, i, j));
    }
}

/// Satellite consolidation: two descriptors that share orbit and
/// sensitivity, of one business key or of two, are columns of one satellite,
/// and no other satellite has their orbit and sensitivity.
pub proof fn lemma_satellite_consolidation(
    dw_schema: Seq<char>,
    keys: Seq<BusinessKeyView>,
    a: int,
    i: int,
    b: int,
    j: int,
)
    requires
        0 <= a < keys.len(),
        0 <= i < keys[a].descriptors.len(),
        0 <= b < keys.len(),
        0 <= j < keys[b].descriptors.len(),
        keys[a].descriptors[i].orbit == keys[b].descriptors[j].orbit,
        keys[a].descriptors[i].is_sensitive == keys[b].descriptors[j].is_sensitive,
    ensures
        exists|s: int|
            {
                &&& 0 <= s < tables_of(dw_schema, keys).satellites.len()
                &&& (#[trigger] tables_of(dw_schema, keys).satellites[s]).key() == orbiting_at(
                    keys,
                    a,
                    i,
                ).key()
                &&& tables_of(dw_schema, keys).satellites[s].columns.contains(
                    orbiting_at(keys, a, i).column(),
                )
                &&& tables_of(dw_schema, keys).satellites[s].columns.contains(
                    orbiting_at(keys, b, j).column(),
                )
                &&& forall|t: int|
                    0 <= t < tables_of(dw_schema, keys).satellites.len() && t != s ==> (
                    #[trigger] tables_of(dw_schema, keys).satellites[t]).key() != orbiting_at(
                        keys,
                        a,
                        i,
                    ).key()
            },
{
    let orbiting = all_orbiting(keys);
    let first = orbiting_at(keys, a, i);
    let second = orbiting_at(keys, b, j);
    let key = first.key();
    let listed = satellite_keys(orbiting);
    let satellites = tables_of(dw_schema, keys).satellites;
    let members = orbiting.filter(with_key(key));
    lemma_orbiting_listed(keys, a, i);
    lemma_orbiting_listed(keys, b, j);
    let x = choose|x: int| 0 <= x < orbiting.len() && orbiting[x] == first;
    let y = choose|y: int| 0 <= y < orbiting.len() && orbiting[y] == second;
    orbiting.lemma_filter_contains(with_key(key), x);
    orbiting.lemma_filter_contains(with_key(key), y);
    lemma_key_listed(orbiting, key);
    lemma_keys_distinct(orbiting);
    let s = choose|s: int| 0 <= s < listed.len() && listed[s] == key;
    let mx = choose|mx: int| 0 <= mx < members.len() && members[mx] == first;
    let my = choose|my: int| 0 <= my < members.len() && members[my] == second;
    assert(satellites[s].columns[mx] == first.column());
    assert(satellites[s].columns[my] == second.column());
    assert(satellites[s].key() == key);
    assert forall|t: int| 0 <= t < satellites.len() && t != s implies (
    #[trigger] satellites[t]).key() != key by {
        assert(satellites[t].key() == listed[t]);
    }
}

/// Every satellite belongs to a business key of the schema: its owner is
/// the position of one, and it is written behind that one's hub.
pub proof fn lemma_satellite_owner(dw_schema: Seq<char>, keys: Seq<BusinessKeyView>, s: int)
    requires
        0 <= s < tables_of(dw_schema, keys).satellites.len(),
    ensures
        0 <= tables_of(dw_schema, keys).satellites[s].owner < keys.len(),
        tables_of(dw_schema, keys).satellites[s].hub_name
            == keys[tables_of(dw_schema, keys).satellites[s].owner].name,
{
    let orbiting = all_orbiting(keys);
    let key = satellite_keys(orbiting)[s];
    let members = orbiting.filter(with_key(key));
    assert(satellite_keys(orbiting).contains(key));
    lemma_key_listed(orbiting, key);
    assert(members.contains(members.first()));
    orbiting.lemma_filter_contains_rev(with_key(key), members.first());
    lemma_orbiting_owned(keys, members.first());
}

/// Whatever orbits was found under the business key that it names.
pub proof fn lemma_orbiting_owned(keys: Seq<BusinessKeyView>, o: Orbiting)
    requires
        all_orbiting(keys).contains(o),
    ensures
        0 <= o.owner < keys.len(),
        o.hub_name == keys[o.owner].name,
    decreases keys.len(),
{
    if keys.len() > 0 {
        let earlier = all_orbiting(keys.drop_last());
        let last = orbiting_of(keys.last(), keys.len() - 1);
        let w = choose|w: int| 0 <= w < (earlier + last).len() && (earlier + last)[w] == o;
        if w < earlier.len() {
            assert(earlier[w] == o);
            lemma_orbiting_owned(keys.drop_last(), o);
        } else {
            assert(last[w - earlier.len()] == o);
        }
    }
}

} // verus!
