//! From column classifications to business keys.
//!
//! The records of one physical table make one business key. Tables are taken
//! in the order in which they first occur, and the records of a table in the
//! order in which they were given.

use crate::controller::dv_tables::{all_sourced, define_tables, tables_of, tables_text};
use crate::model::dv_schema::{
    business_keys_view, descriptors_view, part_links_view, BusinessKey, BusinessKeyPartLink,
    BusinessKeyPartLinkView, BusinessKeyView, ColumnData, ColumnDataView, DVSchema, Descriptor,
    DescriptorLink, DescriptorLinkView, DescriptorView,
};
use crate::utility::text::{copy_text, lowercase, str_eq, to_lowercase};
use vstd::prelude::*;
use vstd::string::StringExecFns;

verus! {

/// The role that the classifier gave a column.
#[derive(Debug, Clone, Copy, PartialEq, Eq, Structural)]
pub enum ColumnCategory {
    BusinessKeyPart,
    Descriptor,
    DescriptorSensitive,
}

/// A role text that names no column category.
#[derive(Debug)]
pub struct InvalidColumnCategory {
    pub found: String,
}

impl InvalidColumnCategory {
    /// The message for the caller of the build.
    pub fn message(&self) -> (text: String)
        ensures
            text@ == "'"@ + self.found@ + "' is not a valid ColumnCategory"@,
    {
        let mut text = String::from_str("'");
        text.append(self.found.as_str());
        text.append("' is not a valid ColumnCategory");
        text
    }
}

impl ColumnCategory {
    /// The category that a role text names, if it names one.
    pub open spec fn named_by(role: Seq<char>) -> Option<ColumnCategory> {
        if role == "Business Key Part"@ {
            Some(ColumnCategory::BusinessKeyPart)
        } else if role == "Descriptor"@ {
            Some(ColumnCategory::Descriptor)
        } else if role == "Descriptor - Sensitive"@ {
            Some(ColumnCategory::DescriptorSensitive)
        } else {
            None
        }
    }

    /// Reads a role text. Any text but the three role names is refused, and
    /// the error carries it.
    pub fn from_str(input: &str) -> (parsed: Result<ColumnCategory, InvalidColumnCategory>)
        ensures
            match parsed {
                Ok(category) => Self::named_by(input@) == Some(category),
                Err(e) => Self::named_by(input@) is None && e.found@ == input@,
            },
    {
        if str_eq(input, "Business Key Part") {
            Ok(ColumnCategory::BusinessKeyPart)
        } else if str_eq(input, "Descriptor") {
            Ok(ColumnCategory::Descriptor)
        } else if str_eq(input, "Descriptor - Sensitive") {
            Ok(ColumnCategory::DescriptorSensitive)
        } else {
            Err(InvalidColumnCategory { found: String::from_str(input) })
        }
    }

    /// Whether the category is one of the two descriptor categories.
    pub open spec fn is_descriptor(self) -> bool {
        self != ColumnCategory::BusinessKeyPart
    }

    /// The role text of the category.
    pub open spec fn role_name(self) -> Seq<char> {
        match self {
            ColumnCategory::BusinessKeyPart => "Business Key Part"@,
            ColumnCategory::Descriptor => "Descriptor"@,
            ColumnCategory::DescriptorSensitive => "Descriptor - Sensitive"@,
        }
    }

    /// The role text of the category.
    pub fn name(&self) -> (text: &'static str)
        ensures
            text@ == self.role_name(),
    {
        match self {
            ColumnCategory::BusinessKeyPart => "Business Key Part",
            ColumnCategory::Descriptor => "Descriptor",
            ColumnCategory::DescriptorSensitive => "Descriptor - Sensitive",
        }
    }

    /// The role text of a category names that category.
    pub proof fn lemma_role_name_names(self)
        ensures
            Self::named_by(self.role_name()) == Some(self),
    {
        reveal_strlit("Business Key Part");
        reveal_strlit("Descriptor");
        reveal_strlit("Descriptor - Sensitive");
        assert("Business Key Part"@.len() == 17);
        assert("Descriptor"@.len() == 10);
        assert("Descriptor - Sensitive"@.len() == 22);
    }
}

/// The classification of one source column.
#[derive(Debug)]
pub struct TransformerObject {
    pub schema_name: String,
    pub table_name: String,
    pub business_key_name: String,
    pub column_name: String,
    pub column_type_name: String,
    pub system_id: i64,
    pub table_oid: u32,
    pub column_ordinal_position: i16,
    pub column_category: ColumnCategory,
}

pub struct TransformerObjectView {
    pub schema_name: Seq<char>,
    pub table_name: Seq<char>,
    pub business_key_name: Seq<char>,
    pub column_name: Seq<char>,
    pub column_type_name: Seq<char>,
    pub system_id: i64,
    pub table_oid: u32,
    pub column_ordinal_position: i16,
    pub column_category: ColumnCategory,
}

impl View for TransformerObject {
    type V = TransformerObjectView;

    open spec fn view(&self) -> TransformerObjectView {
        TransformerObjectView {
            schema_name: self.schema_name@,
            table_name: self.table_name@,
            business_key_name: self.business_key_name@,
            column_name: self.column_name@,
            column_type_name: self.column_type_name@,
            system_id: self.system_id,
            table_oid: self.table_oid,
            column_ordinal_position: self.column_ordinal_position,
            column_category: self.column_category,
        }
    }
}

pub open spec fn records_view(records: Seq<TransformerObject>) -> Seq<TransformerObjectView> {
    Seq::new(records.len(), |i: int| records[i]@)
}

/// The source column that a record describes.
pub open spec fn source_column_of(r: TransformerObjectView) -> ColumnDataView {
    ColumnDataView {
        system_id: r.system_id,
        schema_name: r.schema_name,
        table_oid: r.table_oid,
        table_name: r.table_name,
        column_name: r.column_name,
        column_ordinal_position: r.column_ordinal_position,
        column_type_name: r.column_type_name,
    }
}

/// The descriptor that a record stands for: it is named after its column, it
/// orbits its table, and it has no target yet.
pub open spec fn descriptor_of(r: TransformerObjectView) -> DescriptorView {
    DescriptorView {
        descriptor_link: DescriptorLinkView {
            alias: r.column_name,
            source_column: Some(source_column_of(r)),
            target_column: None,
        },
        orbit: r.table_name,
        is_sensitive: r.column_category == ColumnCategory::DescriptorSensitive,
    }
}

/// The business key part that a record stands for.
pub open spec fn part_link_of(r: TransformerObjectView) -> BusinessKeyPartLinkView {
    BusinessKeyPartLinkView {
        alias: r.column_name,
        source_columns: seq![source_column_of(r)],
        target_column: None,
    }
}

pub open spec fn in_table(table_oid: u32) -> spec_fn(TransformerObjectView) -> bool {
    |r: TransformerObjectView| r.table_oid == table_oid
}

pub open spec fn as_descriptor() -> spec_fn(TransformerObjectView) -> Option<DescriptorView> {
    |r: TransformerObjectView|
        if r.column_category.is_descriptor() {
            Some(descriptor_of(r))
        } else {
            None
        }
}

pub open spec fn as_part_link() -> spec_fn(TransformerObjectView) -> Option<
    BusinessKeyPartLinkView,
> {
    |r: TransformerObjectView|
        if r.column_category == ColumnCategory::BusinessKeyPart {
            Some(part_link_of(r))
        } else {
            None
        }
}

/// A record proposes a name unless its name reads "NA" in any letter case.
pub open spec fn proposes_name() -> spec_fn(TransformerObjectView) -> bool {
    |r: TransformerObjectView| lowercase(r.business_key_name) != "na"@
}

/// The name of a table's business key: the lowercase form of the last name
/// that a record of the table proposes, and the empty text if none does.
pub open spec fn resolved_name(group: Seq<TransformerObjectView>) -> Seq<char> {
    let proposals = group.filter(proposes_name());
    if proposals.len() == 0 {
        Seq::empty()
    } else {
        lowercase(proposals.last().business_key_name)
    }
}

/// The business key that the records of one table make.
pub open spec fn business_key_of(group: Seq<TransformerObjectView>) -> BusinessKeyView {
    BusinessKeyView {
        name: resolved_name(group),
        business_key_part_links: group.filter_map(as_part_link()),
        descriptors: group.filter_map(as_descriptor()),
    }
}

/// The tables of the records, each once, in the order of their first record.
pub open spec fn table_ids(records: Seq<TransformerObjectView>) -> Seq<u32>
    decreases records.len(),
{
    if records.len() == 0 {
        Seq::empty()
    } else {
        let earlier = table_ids(records.drop_last());
        if earlier.contains(records.last().table_oid) {
            earlier
        } else {
            earlier.push(records.last().table_oid)
        }
    }
}

/// One business key for each table of the records.
pub open spec fn business_keys_of(records: Seq<TransformerObjectView>) -> Seq<BusinessKeyView> {
    Seq::new(
        table_ids(records).len(),
        |i: int| business_key_of(records.filter(in_table(table_ids(records)[i]))),
    )
}

/// Calls `uuid::Uuid::new_v4`, which draws a random identifier from the
/// operating system. Nothing is claimed of the result. The call panics where
/// the operating system gives no random bytes.
#[verifier::external_body]
pub(crate) fn new_id() -> uuid::Uuid {
    uuid::Uuid::new_v4()
}

/// The source column of a record, under a new identifier.
pub fn source_column(record: &TransformerObject) -> (column: ColumnData)
    ensures
        column@ == source_column_of(record@),
{
    ColumnData {
        id: new_id(),
        system_id: record.system_id,
        schema_name: copy_text(&record.schema_name),
        table_oid: record.table_oid,
        table_name: copy_text(&record.table_name),
        column_name: copy_text(&record.column_name),
        column_ordinal_position: record.column_ordinal_position,
        column_type_name: copy_text(&record.column_type_name),
    }
}

/// A descriptor over a source column, with no target yet.
pub fn get_descriptor(
    column_name: String,
    column_data: ColumnData,
    orbit: String,
    is_sensitive: bool,
) -> (descriptor: Descriptor)
    ensures
        descriptor@ == (DescriptorView {
            descriptor_link: DescriptorLinkView {
                alias: column_name@,
                source_column: Some(column_data@),
                target_column: None,
            },
            orbit: orbit@,
            is_sensitive,
        }),
{
    let descriptor_link = DescriptorLink {
        id: new_id(),
        alias: column_name,
        source_column: Some(column_data),
        target_column: None,
    };
    Descriptor { id: new_id(), descriptor_link, orbit, is_sensitive }
}

/// A business key part over one source column, with no target yet.
pub fn get_business_key_part_link(alias: String, column_data: ColumnData) -> (link:
    BusinessKeyPartLink)
    ensures
        link@ == (BusinessKeyPartLinkView {
            alias: alias@,
            source_columns: seq![column_data@],
            target_column: None,
        }),
{
    let mut source_columns: Vec<ColumnData> = Vec::new();
    source_columns.push(column_data);
    let link = BusinessKeyPartLink {
        id: new_id(),
        alias,
        source_columns,
        target_column: None,
    };
    assert(link@.source_columns =~= seq![column_data@]);
    link
}

/// The business key of one table: its parts and descriptors in the order of
/// the records, under the last name that a record of the table proposes.
pub fn business_key_for_table(records: &Vec<TransformerObject>, table_oid: u32) -> (key:
    BusinessKey)
    ensures
        key@ == business_key_of(records_view(records@).filter(in_table(table_oid))),
{
    let ghost all = records_view(records@);
    let mut descriptors: Vec<Descriptor> = Vec::new();
    let mut part_links: Vec<BusinessKeyPartLink> = Vec::new();
    let mut name = String::new();
    let mut i: usize = 0;
    assert(all.take(0) =~= Seq::empty());
    while i < records.len()
        invariant
            i <= records.len(),
            all == records_view(records@),
            descriptors_view(descriptors@) == all.take(i as int).filter(
                in_table(table_oid),
            ).filter_map(as_descriptor()),
            part_links_view(part_links@) == all.take(i as int).filter(
                in_table(table_oid),
            ).filter_map(as_part_link()),
            name@ == resolved_name(all.take(i as int).filter(in_table(table_oid))),
        decreases records.len() - i,
    {
        let record = &records[i];
        let ghost before = all.take(i as int).filter(in_table(table_oid));
        proof {
            assert(all.take(i + 1) =~= all.take(i as int).push(record@));
            all.take(i as int).lemma_filter_push(record@, in_table(table_oid));
        }
        if record.table_oid == table_oid {
            let ghost after = before.push(record@);
            proof {
                assert(all.take(i + 1).filter(in_table(table_oid)) == after);
                assert(after.drop_last() =~= before);
                assert(after.last() == record@);
            }
            let column = source_column(record);
            match record.column_category {
                ColumnCategory::BusinessKeyPart => {
                    let link = get_business_key_part_link(copy_text(&record.column_name), column);
                    part_links.push(link);
                    proof {
                        assert(part_links_view(part_links@) =~= before.filter_map(as_part_link())
                            + seq![part_link_of(record@)]);
                    }
                },
                ColumnCategory::Descriptor => {
                    let descriptor = get_descriptor(
                        copy_text(&record.column_name),
                        column,
                        copy_text(&record.table_name),
                        false,
                    );
                    descriptors.push(descriptor);
                    proof {
                        assert(descriptors_view(descriptors@) =~= before.filter_map(
                            as_descriptor(),
                        ) + seq![descriptor_of(record@)]);
                    }
                },
                ColumnCategory::DescriptorSensitive => {
                    let descriptor = get_descriptor(
                        copy_text(&record.column_name),
                        column,
                        copy_text(&record.table_name),
                        true,
                    );
                    descriptors.push(descriptor);
                    proof {
                        assert(descriptors_view(descriptors@) =~= before.filter_map(
                            as_descriptor(),
                        ) + seq![descriptor_of(record@)]);
                    }
                },
            }
            let lowered = to_lowercase(record.business_key_name.as_str());
            let ghost proposals = before.filter(proposes_name());
            proof {
                before.lemma_filter_push(record@, proposes_name());
            }
            if !str_eq(lowered.as_str(), "na") {
                name = lowered;
                proof {
                    assert(after.filter(proposes_name()) == proposals.push(record@));
                }
            } else {
                proof {
                    assert(after.filter(proposes_name()) == proposals);
                }
            }
        } else {
            proof {
                assert(all.take(i + 1).filter(in_table(table_oid)) == before);
            }
        }
        i += 1;
    }
    assert(all.take(records.len() as int) =~= all);
    BusinessKey { id: new_id(), name, business_key_part_links: part_links, descriptors }
}

/// Whether a table is among those listed.
pub fn contains_table(ids: &Vec<u32>, table_oid: u32) -> (found: bool)
    ensures
        found == ids@.contains(table_oid),
{
    let mut i: usize = 0;
    while i < ids.len()
        invariant
            i <= ids.len(),
            forall|j: int| 0 <= j < i ==> ids@[j] != table_oid,
        decreases ids.len() - i,
    {
        if ids[i] == table_oid {
            return true;
        }
        i += 1;
    }
    false
}

/// The tables of the records, each once, in the order of their first record.
pub fn table_oids(records: &Vec<TransformerObject>) -> (ids: Vec<u32>)
    ensures
        ids@ == table_ids(records_view(records@)),
{
    let ghost all = records_view(records@);
    let mut ids: Vec<u32> = Vec::new();
    let mut i: usize = 0;
    assert(all.take(0) =~= Seq::empty());
    while i < records.len()
        invariant
            i <= records.len(),
            all == records_view(records@),
            ids@ == table_ids(all.take(i as int)),
        decreases records.len() - i,
    {
        proof {
            assert(all.take(i + 1).drop_last() =~= all.take(i as int));
            assert(all.take(i + 1).last() == records@[i as int]@);
        }
        if !contains_table(&ids, records[i].table_oid) {
            ids.push(records[i].table_oid);
        }
        i += 1;
    }
    assert(all.take(records.len() as int) =~= all);
    ids
}

/// Groups the records by table and makes one business key of each group.
/// Tables come in the order in which they first occur.
pub fn business_keys_from(records: &Vec<TransformerObject>) -> (keys: Vec<BusinessKey>)
    ensures
        business_keys_view(keys@) == business_keys_of(records_view(records@)),
{
    let ids = table_oids(records);
    let ghost all = records_view(records@);
    let mut keys: Vec<BusinessKey> = Vec::new();
    let mut i: usize = 0;
    while i < ids.len()
        invariant
            i <= ids.len(),
            all == records_view(records@),
            ids@ == table_ids(all),
            keys.len() == i,
            forall|j: int|
                0 <= j < i ==> (#[trigger] keys@[j])@ == business_key_of(
                    all.filter(in_table(ids@[j])),
                ),
        decreases ids.len() - i,
    {
        let key = business_key_for_table(records, ids[i]);
        keys.push(key);
        i += 1;
    }
    assert(business_keys_view(keys@) =~= business_keys_of(all));
    keys
}

/// One business key for each table: no table is listed twice, and a table
/// is listed exactly if a record belongs to it.
pub proof fn lemma_tables_once(records: Seq<TransformerObjectView>, table_oid: u32)
    ensures
        table_ids(records).no_duplicates(),
        table_ids(records).contains(table_oid) <==> exists|i: int|
            0 <= i < records.len() && (#[trigger] records[i]).table_oid == table_oid,
    decreases records.len(),
{
    if records.len() > 0 {
        let front = records.drop_last();
        let earlier = table_ids(front);
        let last = records.last().table_oid;
        lemma_tables_once(front, table_oid);
        if table_ids(records).contains(table_oid) {
            if earlier.contains(table_oid) {
                let i = choose|i: int| 0 <= i < front.len() && front[i].table_oid == table_oid;
                assert(records[i].table_oid == table_oid);
            } else {
                assert(last == table_oid);
                assert(records[records.len() - 1].table_oid == table_oid);
            }
        }
        if exists|i: int| 0 <= i < records.len() && (#[trigger] records[i]).table_oid == table_oid {
            let i = choose|i: int|
                0 <= i < records.len() && (#[trigger] records[i]).table_oid == table_oid;
            if i < front.len() {
                assert(front[i].table_oid == table_oid);
                let w = choose|w: int| 0 <= w < earlier.len() && earlier[w] == table_oid;
                if !earlier.contains(last) {
                    assert(earlier.push(last)[w] == table_oid);
                }
            } else {
                if !earlier.contains(last) {
                    assert(earlier.push(last)[earlier.len() as int] == table_oid);
                }
            }
        }
    }
}

/// What a selection maps an item to is among what it selects.
pub proof fn lemma_filter_map_keeps<A, B>(items: Seq<A>, f: spec_fn(A) -> Option<B>, i: int)
    requires
        0 <= i < items.len(),
        f(items[i]) is Some,
    ensures
        items.filter_map(f).contains(f(items[i])->0),
    decreases items.len(),
{
    let front = items.drop_last();
    let selected = front.filter_map(f);
    if i < items.len() - 1 {
        lemma_filter_map_keeps(front, f, i);
        let w = choose|w: int| 0 <= w < selected.len() && selected[w] == f(items[i])->0;
        if f(items.last()) is Some {
            assert((selected + seq![f(items.last())->0])[w] == f(items[i])->0);
        }
    } else {
        assert((selected + seq![f(items[i])->0])[selected.len() as int] == f(items[i])->0);
    }
}

/// No record is dropped: every record is a part or a descriptor of the
/// business key of its table.
pub proof fn lemma_record_kept(records: Seq<TransformerObjectView>, i: int)
    requires
        0 <= i < records.len(),
    ensures
        exists|k: int|
            {
                &&& 0 <= k < business_keys_of(records).len()
                &&& #[trigger] table_ids(records)[k] == records[i].table_oid
                &&& records[i].column_category == ColumnCategory::BusinessKeyPart
                    ==> business_keys_of(records)[k].business_key_part_links.contains(
                    part_link_of(records[i]),
                )
                &&& records[i].column_category != ColumnCategory::BusinessKeyPart
                    ==> business_keys_of(records)[k].descriptors.contains(
                    descriptor_of(records[i]),
                )
            },
{
    let table = records[i].table_oid;
    lemma_tables_once(records, table);
    let k = choose|k: int| 0 <= k < table_ids(records).len() && table_ids(records)[k] == table;
    let group = records.filter(in_table(table));
    records.lemma_filter_contains(in_table(table), i);
    let g = choose|g: int| 0 <= g < group.len() && group[g] == records[i];
    if records[i].column_category == ColumnCategory::BusinessKeyPart {
        lemma_filter_map_keeps(group, as_part_link(), g);
    } else {
        lemma_filter_map_keeps(group, as_descriptor(), g);
    }
    assert(table_ids(records)[k] == records[i].table_oid);
}

/// Every descriptor that records make has its source column.
pub proof fn lemma_business_keys_sourced(records: Seq<TransformerObjectView>)
    ensures
        all_sourced(business_keys_of(records)),
{
    let keys = business_keys_of(records);
    assert forall|i: int, j: int|
        0 <= i < keys.len() && 0 <= j < keys[i].descriptors.len() implies (
    #[trigger] keys[i].descriptors[j]).descriptor_link.source_column is Some by {
        let group = records.filter(in_table(table_ids(records)[i]));
        let descriptor = keys[i].descriptors[j];
        assert(group.filter_map(as_descriptor()).contains(descriptor));
        group.lemma_filter_map_contains(as_descriptor(), descriptor);
    }
}

/// Calls `chrono::Utc::now` and drops the offset (`DateTime::naive_utc`):
/// the time of the system clock, in UTC. Nothing is claimed of the result.
/// The call panics where the system clock stands before the year 1970.
#[verifier::external_body]
pub(crate) fn now_utc() -> chrono::NaiveDateTime {
    chrono::Utc::now().naive_utc()
}

/// A schema with the given identifier, created and last modified at `now`.
pub fn assemble_schema_at(
    dw_schema: String,
    business_keys: Vec<BusinessKey>,
    id: uuid::Uuid,
    now: chrono::NaiveDateTime,
) -> (schema: DVSchema)
    ensures
        schema.id == id,
        schema.dw_schema == dw_schema,
        schema.create_timestamp_gmt == now,
        schema.modified_timestamp_gmt == now,
        schema.business_keys == business_keys,
{
    DVSchema {
        id,
        dw_schema,
        create_timestamp_gmt: now,
        modified_timestamp_gmt: now,
        business_keys,
    }
}

/// A schema of the given business keys under a new identifier, created and
/// last modified at the present time.
pub fn assemble_schema(dw_schema: String, business_keys: Vec<BusinessKey>) -> (schema: DVSchema)
    ensures
        schema.dw_schema == dw_schema,
        schema.business_keys == business_keys,
        schema.create_timestamp_gmt == schema.modified_timestamp_gmt,
{
    assemble_schema_at(dw_schema, business_keys, new_id(), now_utc())
}

/// Sets the time of the last modification and leaves the rest as it is.
pub fn touch_at(dv_schema: &mut DVSchema, now: chrono::NaiveDateTime)
    ensures
        final(dv_schema).modified_timestamp_gmt == now,
        final(dv_schema).id == old(dv_schema).id,
        final(dv_schema).dw_schema == old(dv_schema).dw_schema,
        final(dv_schema).create_timestamp_gmt == old(dv_schema).create_timestamp_gmt,
        final(dv_schema).business_keys == old(dv_schema).business_keys,
{
    dv_schema.modified_timestamp_gmt = now;
}

/// Marks the schema as modified at the present time, as is done right
/// before it is stored. Nothing else changes.
pub fn touch(dv_schema: &mut DVSchema)
    ensures
        final(dv_schema).id == old(dv_schema).id,
        final(dv_schema).dw_schema == old(dv_schema).dw_schema,
        final(dv_schema).create_timestamp_gmt == old(dv_schema).create_timestamp_gmt,
        final(dv_schema).business_keys == old(dv_schema).business_keys,
{
    touch_at(dv_schema, now_utc());
}

/// What a build hands on: the schema, and the batch that creates its tables.
#[derive(Debug)]
pub struct DataVaultBuild {
    pub dv_schema: DVSchema,
    pub ddl: String,
}

/// Builds a Data Vault from column classifications: one business key for
/// each table, the batch that creates the hubs and satellites, and the schema
/// that holds the business keys.
pub fn build_dv(dw_schema: &str, records: &Vec<TransformerObject>) -> (build: DataVaultBuild)
    ensures
        build.dv_schema@.dw_schema == dw_schema@,
        build.dv_schema@.business_keys == business_keys_of(records_view(records@)),
        build.dv_schema.create_timestamp_gmt == build.dv_schema.modified_timestamp_gmt,
        build.ddl@ == tables_text(tables_of(dw_schema@, business_keys_of(records_view(records@)))),
{
    let business_keys = business_keys_from(records);
    proof {
        lemma_business_keys_sourced(records_view(records@));
    }
    let ddl = match define_tables(dw_schema, &business_keys) {
        Ok(tables) => tables.create_statements(),
        Err(_) => vstd::pervasive::unreached(),
    };
    let dv_schema = assemble_schema(dw_schema.to_owned(), business_keys);
    DataVaultBuild { dv_schema, ddl }
}

} // verus!
