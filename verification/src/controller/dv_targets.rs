//! Target columns: what to ask the catalog once the tables exist, and what
//! its answers make of the schema.
//!
//! For every descriptor the column named by its alias is looked up in its
//! satellite, and for every key part the column `<alias>_bk` in its hub. No
//! row leaves the target absent, one row becomes the target, and more than
//! one row is an inconsistency that leaves the schema as it was.

use crate::controller::dv_builder::new_id;
use crate::controller::dv_tables::{
    lemma_satellite_consolidation, orbiting_at, satellite_label, satellite_label_text, tables_of,
};
use crate::model::dv_schema::{
    column_view, BusinessKey, BusinessKeyPartLink, BusinessKeyPartLinkView, BusinessKeyView,
    ColumnData, ColumnDataView, DVSchema, DVSchemaView, Descriptor, DescriptorLinkView,
    DescriptorView,
};
use crate::utility::text::copy_text;
use vstd::prelude::*;
use vstd::string::StringExecFns;

verus! {

/// One column to look up in the catalog.
#[derive(Debug)]
pub struct ColumnRequest {
    pub schema_name: String,
    pub table_name: String,
    pub column_name: String,
}

pub struct ColumnRequestView {
    pub schema_name: Seq<char>,
    pub table_name: Seq<char>,
    pub column_name: Seq<char>,
}

impl View for ColumnRequest {
    type V = ColumnRequestView;

    open spec fn view(&self) -> ColumnRequestView {
        ColumnRequestView {
            schema_name: self.schema_name@,
            table_name: self.table_name@,
            column_name: self.column_name@,
        }
    }
}

/// One row of the catalog's answer.
#[derive(Debug)]
pub struct CatalogRow {
    pub system_id: i64,
    pub schema_name: String,
    pub table_name: String,
    pub table_oid: u32,
    pub column_name: String,
    pub column_ordinal_position: i16,
    pub column_type_name: String,
}

impl View for CatalogRow {
    type V = ColumnDataView;

    /// The column that the row describes.
    open spec fn view(&self) -> ColumnDataView {
        ColumnDataView {
            system_id: self.system_id,
            schema_name: self.schema_name@,
            table_oid: self.table_oid,
            table_name: self.table_name@,
            column_name: self.column_name@,
            column_ordinal_position: self.column_ordinal_position,
            column_type_name: self.column_type_name@,
        }
    }
}

pub open spec fn requests_view(requests: Seq<ColumnRequest>) -> Seq<ColumnRequestView> {
    Seq::new(requests.len(), |i: int| requests[i]@)
}

pub open spec fn rows_view(rows: Seq<CatalogRow>) -> Seq<ColumnDataView> {
    Seq::new(rows.len(), |i: int| rows[i]@)
}

pub open spec fn answers_view(answers: Seq<Vec<CatalogRow>>) -> Seq<Seq<ColumnDataView>> {
    Seq::new(answers.len(), |i: int| rows_view(answers[i]@))
}

/// Where the target of a descriptor is looked up.
pub open spec fn descriptor_request_of(dw_schema: Seq<char>, descriptor: DescriptorView)
    -> ColumnRequestView {
    ColumnRequestView {
        schema_name: dw_schema,
        table_name: "sat_"@ + satellite_label(descriptor.orbit, descriptor.is_sensitive),
        column_name: descriptor.descriptor_link.alias,
    }
}

/// Where the target of a key part is looked up.
pub open spec fn key_part_request_of(
    dw_schema: Seq<char>,
    business_key_name: Seq<char>,
    link: BusinessKeyPartLinkView,
) -> ColumnRequestView {
    ColumnRequestView {
        schema_name: dw_schema,
        table_name: "hub_"@ + business_key_name,
        column_name: link.alias + "_bk"@,
    }
}

/// The requests of one business key: its descriptors, then its key parts.
pub open spec fn key_requests(dw_schema: Seq<char>, key: BusinessKeyView) -> Seq<
    ColumnRequestView,
> {
    Seq::new(key.descriptors.len(), |j: int| descriptor_request_of(dw_schema, key.descriptors[j]))
        + Seq::new(
        key.business_key_part_links.len(),
        |j: int| key_part_request_of(dw_schema, key.name, key.business_key_part_links[j]),
    )
}

/// The requests of the first `n` business keys.
pub open spec fn requests_upto(schema: DVSchemaView, n: int) -> Seq<ColumnRequestView>
    decreases n,
{
    if n <= 0 {
        Seq::empty()
    } else {
        requests_upto(schema, n - 1) + key_requests(schema.dw_schema, schema.business_keys[n - 1])
    }
}

/// All requests of a schema, business key by business key.
pub open spec fn requests_of(schema: DVSchemaView) -> Seq<ColumnRequestView> {
    requests_upto(schema, schema.business_keys.len() as int)
}

/// Where the target of a descriptor is looked up.
pub fn descriptor_request(dw_schema: &str, descriptor: &Descriptor) -> (request: ColumnRequest)
    ensures
        request@ == descriptor_request_of(dw_schema@, descriptor@),
{
    let label = satellite_label_text(descriptor.orbit.as_str(), descriptor.is_sensitive);
    let mut table_name = String::from_str("sat_");
    table_name.append(label.as_str());
    ColumnRequest {
        schema_name: dw_schema.to_owned(),
        table_name,
        column_name: copy_text(&descriptor.descriptor_link.alias),
    }
}

/// Where the target of a key part is looked up.
pub fn key_part_request(
    dw_schema: &str,
    business_key_name: &str,
    link: &BusinessKeyPartLink,
) -> (request: ColumnRequest)
    ensures
        request@ == key_part_request_of(dw_schema@, business_key_name@, link@),
{
    let mut table_name = String::from_str("hub_");
    table_name.append(business_key_name);
    let mut column_name = copy_text(&link.alias);
    column_name.append("_bk");
    ColumnRequest { schema_name: dw_schema.to_owned(), table_name, column_name }
}

/// Adds the requests of one business key to a list.
fn push_key_requests(requests: &mut Vec<ColumnRequest>, dw_schema: &str, key: &BusinessKey)
    ensures
        requests_view(final(requests)@) == requests_view(old(requests)@) + key_requests(
            dw_schema@,
            key@,
        ),
{
    let ghost before = requests_view(requests@);
    let ghost for_descriptors = Seq::new(
        key@.descriptors.len(),
        |j: int| descriptor_request_of(dw_schema@, key@.descriptors[j]),
    );
    let ghost for_parts = Seq::new(
        key@.business_key_part_links.len(),
        |j: int| key_part_request_of(dw_schema@, key@.name, key@.business_key_part_links[j]),
    );
    let mut j: usize = 0;
    assert(requests_view(requests@) =~= before + for_descriptors.take(0));
    while j < key.descriptors.len()
        invariant
            j <= key.descriptors.len(),
            for_descriptors == Seq::new(
                key@.descriptors.len(),
                |j: int| descriptor_request_of(dw_schema@, key@.descriptors[j]),
            ),
            requests_view(requests@) == before + for_descriptors.take(j as int),
        decreases key.descriptors.len() - j,
    {
        let request = descriptor_request(dw_schema, &key.descriptors[j]);
        let ghost listed = requests_view(requests@);
        requests.push(request);
        proof {
            assert(key@.descriptors[j as int] == key.descriptors@[j as int]@);
            assert(for_descriptors[j as int] == request@);
            assert(requests_view(requests@) =~= listed.push(request@));
            assert(for_descriptors.take(j + 1) =~= for_descriptors.take(j as int).push(request@));
            assert(requests_view(requests@) =~= before + for_descriptors.take(j + 1));
        }
        j += 1;
    }
    assert(for_descriptors.take(key.descriptors.len() as int) =~= for_descriptors);
    let mut p: usize = 0;
    assert(requests_view(requests@) =~= before + for_descriptors + for_parts.take(0));
    while p < key.business_key_part_links.len()
        invariant
            p <= key.business_key_part_links.len(),
            for_parts == Seq::new(
                key@.business_key_part_links.len(),
                |j: int|
                    key_part_request_of(dw_schema@, key@.name, key@.business_key_part_links[j]),
            ),
            requests_view(requests@) == before + for_descriptors + for_parts.take(p as int),
        decreases key.business_key_part_links.len() - p,
    {
        let request = key_part_request(
            dw_schema,
            key.name.as_str(),
            &key.business_key_part_links[p],
        );
        let ghost listed = requests_view(requests@);
        requests.push(request);
        proof {
            assert(key@.business_key_part_links[p as int]
                == key.business_key_part_links@[p as int]@);
            assert(for_parts[p as int] == request@);
            assert(requests_view(requests@) =~= listed.push(request@));
            assert(for_parts.take(p + 1) =~= for_parts.take(p as int).push(request@));
            assert(requests_view(requests@) =~= before + for_descriptors + for_parts.take(p + 1));
        }
        p += 1;
    }
    assert(for_parts.take(key.business_key_part_links.len() as int) =~= for_parts);
    assert(before + for_descriptors + for_parts =~= before + key_requests(dw_schema@, key@));
}

/// The columns to look up for a schema: for each business key its
/// descriptors, then its key parts.
pub fn target_column_requests(dv_schema: &DVSchema) -> (requests: Vec<ColumnRequest>)
    ensures
        requests_view(requests@) == requests_of(dv_schema@),
{
    let mut requests: Vec<ColumnRequest> = Vec::new();
    let mut i: usize = 0;
    assert(requests_view(requests@) =~= requests_upto(dv_schema@, 0));
    while i < dv_schema.business_keys.len()
        invariant
            i <= dv_schema.business_keys.len(),
            requests_view(requests@) == requests_upto(dv_schema@, i as int),
        decreases dv_schema.business_keys.len() - i,
    {
        assert(dv_schema@.business_keys[i as int] == dv_schema.business_keys@[i as int]@);
        push_key_requests(
            &mut requests,
            dv_schema.dw_schema.as_str(),
            &dv_schema.business_keys[i],
        );
        i += 1;
    }
    requests
}

/// The answers do not fit the requests.
#[derive(Debug, Clone, Copy, PartialEq, Eq, Structural)]
pub enum CatalogInconsistency {
    /// There are not as many answers as requests.
    AnswerCount { found: usize },
    /// The answer to the request at this position has more than one row.
    AmbiguousColumn { request: usize },
}

/// The target that an answer gives: its row if it has exactly one.
pub open spec fn target_of(rows: Seq<ColumnDataView>) -> Option<ColumnDataView> {
    if rows.len() == 1 {
        Some(rows[0])
    } else {
        None
    }
}

/// The answer at `k` is the first with more than one row.
pub open spec fn first_ambiguous(answers: Seq<Seq<ColumnDataView>>, k: int) -> bool {
    &&& 0 <= k < answers.len()
    &&& answers[k].len() > 1
    &&& forall|e: int| 0 <= e < k ==> (#[trigger] answers[e]).len() <= 1
}

/// No answer has more than one row.
pub open spec fn unambiguous(answers: Seq<Seq<ColumnDataView>>) -> bool {
    forall|e: int| 0 <= e < answers.len() ==> (#[trigger] answers[e]).len() <= 1
}

/// The number of requests of the first `n` business keys.
pub open spec fn request_count_upto(schema: DVSchemaView, n: int) -> int
    decreases n,
{
    if n <= 0 {
        0
    } else {
        request_count_upto(schema, n - 1) + schema.business_keys[n - 1].descriptors.len()
            + schema.business_keys[n - 1].business_key_part_links.len()
    }
}

/// There are as many requests as descriptors and key parts.
pub proof fn lemma_request_count(schema: DVSchemaView, n: int)
    requires
        0 <= n <= schema.business_keys.len(),
    ensures
        requests_upto(schema, n).len() == request_count_upto(schema, n),
    decreases n,
{
    if n > 0 {
        lemma_request_count(schema, n - 1);
    }
}

/// A business key with the targets that the answers from `base` on give:
/// first those of its descriptors, then those of its key parts.
pub open spec fn key_resolved(key: BusinessKeyView, answers: Seq<Seq<ColumnDataView>>, base: int)
    -> BusinessKeyView {
    BusinessKeyView {
        name: key.name,
        business_key_part_links: Seq::new(
            key.business_key_part_links.len(),
            |j: int|
                BusinessKeyPartLinkView {
                    target_column: target_of(answers[base + key.descriptors.len() + j]),
                    ..key.business_key_part_links[j]
                },
        ),
        descriptors: Seq::new(
            key.descriptors.len(),
            |j: int|
                DescriptorView {
                    descriptor_link: DescriptorLinkView {
                        target_column: target_of(answers[base + j]),
                        ..key.descriptors[j].descriptor_link
                    },
                    ..key.descriptors[j]
                },
        ),
    }
}

/// A schema with the targets that the answers give, the answer at a position
/// for the request at that position.
pub open spec fn resolved(schema: DVSchemaView, answers: Seq<Seq<ColumnDataView>>)
    -> DVSchemaView {
    DVSchemaView {
        dw_schema: schema.dw_schema,
        business_keys: Seq::new(
            schema.business_keys.len(),
            |i: int|
                key_resolved(schema.business_keys[i], answers, request_count_upto(schema, i)),
        ),
    }
}

/// The column that a row of the catalog describes, under a new identifier.
pub fn column_from_row(row: &CatalogRow) -> (column: ColumnData)
    ensures
        column@ == row@,
{
    ColumnData {
        id: new_id(),
        system_id: row.system_id,
        schema_name: copy_text(&row.schema_name),
        table_oid: row.table_oid,
        table_name: copy_text(&row.table_name),
        column_name: copy_text(&row.column_name),
        column_ordinal_position: row.column_ordinal_position,
        column_type_name: copy_text(&row.column_type_name),
    }
}

/// The target that one answer gives: absent for no row, the row's column for
/// one row. More than one row is refused.
pub fn target_from_rows(rows: &Vec<CatalogRow>) -> (outcome: Option<Option<ColumnData>>)
    ensures
        match outcome {
            Some(target) => rows.len() <= 1 && column_view(target)
                == target_of(rows_view(rows@)),
            None => rows.len() > 1,
        },
{
    if rows.len() == 0 {
        Some(None)
    } else if rows.len() == 1 {
        Some(Some(column_from_row(&rows[0])))
    } else {
        None
    }
}

/// The target that an answer of at most one row gives.
fn single_target(rows: &Vec<CatalogRow>) -> (target: Option<ColumnData>)
    requires
        rows.len() <= 1,
    ensures
        column_view(target) == target_of(rows_view(rows@)),
{
    if rows.len() == 1 {
        Some(column_from_row(&rows[0]))
    } else {
        None
    }
}

/// `after` is `before` with the given target and nothing else changed.
pub open spec fn descriptor_retargeted(
    before: Descriptor,
    after: Descriptor,
    target: Option<ColumnDataView>,
) -> bool {
    &&& after.id == before.id
    &&& after.orbit == before.orbit
    &&& after.is_sensitive == before.is_sensitive
    &&& after.descriptor_link.id == before.descriptor_link.id
    &&& after.descriptor_link.alias == before.descriptor_link.alias
    &&& after.descriptor_link.source_column == before.descriptor_link.source_column
    &&& column_view(after.descriptor_link.target_column) == target
}

/// `after` is `before` with the given target and nothing else changed.
pub open spec fn key_part_retargeted(
    before: BusinessKeyPartLink,
    after: BusinessKeyPartLink,
    target: Option<ColumnDataView>,
) -> bool {
    &&& after.id == before.id
    &&& after.alias == before.alias
    &&& after.source_columns == before.source_columns
    &&& column_view(after.target_column) == target
}

/// `after` is `before` with the targets that the answers from `base` on
/// give, and nothing else changed.
pub open spec fn key_retargeted(
    before: BusinessKey,
    after: BusinessKey,
    answers: Seq<Seq<ColumnDataView>>,
    base: int,
) -> bool {
    &&& after.id == before.id
    &&& after.name == before.name
    &&& after.descriptors.len() == before.descriptors.len()
    &&& after.business_key_part_links.len() == before.business_key_part_links.len()
    &&& forall|j: int|
        0 <= j < before.descriptors.len() ==> descriptor_retargeted(
            before.descriptors@[j],
            #[trigger] after.descriptors@[j],
            target_of(answers[base + j]),
        )
    &&& forall|j: int|
        0 <= j < before.business_key_part_links.len() ==> key_part_retargeted(
            before.business_key_part_links@[j],
            #[trigger] after.business_key_part_links@[j],
            target_of(answers[base + before.descriptors.len() + j]),
        )
}

/// `after` is `before` with the targets that the answers give: identifiers,
/// times, names, aliases and source columns are as they were.
pub open spec fn schema_retargeted(
    before: DVSchema,
    after: DVSchema,
    answers: Seq<Seq<ColumnDataView>>,
) -> bool {
    &&& after.id == before.id
    &&& after.dw_schema == before.dw_schema
    &&& after.create_timestamp_gmt == before.create_timestamp_gmt
    &&& after.modified_timestamp_gmt == before.modified_timestamp_gmt
    &&& after.business_keys.len() == before.business_keys.len()
    &&& forall|i: int|
        0 <= i < before.business_keys.len() ==> key_retargeted(
            before.business_keys@[i],
            #[trigger] after.business_keys@[i],
            answers,
            request_count_upto(before@, i),
        )
}

/// A retargeted business key reads as the resolved one.
pub proof fn lemma_key_retargeted_view(
    before: BusinessKey,
    after: BusinessKey,
    answers: Seq<Seq<ColumnDataView>>,
    base: int,
)
    requires
        key_retargeted(before, after, answers, base),
    ensures
        after@ == key_resolved(before@, answers, base),
{
    let wanted = key_resolved(before@, answers, base);
    assert forall|j: int| 0 <= j < before.descriptors.len() implies after@.descriptors[j]
        == wanted.descriptors[j] by {
        assert(descriptor_retargeted(
            before.descriptors@[j],
            after.descriptors@[j],
            target_of(answers[base + j]),
        ));
    }
    assert(after@.descriptors =~= wanted.descriptors);
    assert forall|j: int|
        0 <= j < before.business_key_part_links.len() implies after@.business_key_part_links[j]
        == wanted.business_key_part_links[j] by {
        assert(key_part_retargeted(
            before.business_key_part_links@[j],
            after.business_key_part_links@[j],
            target_of(answers[base + before.descriptors.len() + j]),
        ));
    }
    assert(after@.business_key_part_links =~= wanted.business_key_part_links);
}

/// A retargeted schema reads as the resolved one.
pub proof fn lemma_schema_retargeted_view(
    before: DVSchema,
    after: DVSchema,
    answers: Seq<Seq<ColumnDataView>>,
)
    requires
        schema_retargeted(before, after, answers),
    ensures
        after@ == resolved(before@, answers),
{
    assert forall|i: int| 0 <= i < before.business_keys.len() implies after@.business_keys[i]
        == resolved(before@, answers).business_keys[i] by {
        lemma_key_retargeted_view(
            before.business_keys@[i],
            after.business_keys@[i],
            answers,
            request_count_upto(before@, i),
        );
    }
    assert(after@.business_keys =~= resolved(before@, answers).business_keys);
}

/// The number of requests never shrinks with more business keys.
pub proof fn lemma_request_count_grows(schema: DVSchemaView, i: int, n: int)
    requires
        0 <= i <= n,
    ensures
        request_count_upto(schema, i) <= request_count_upto(schema, n),
    decreases n - i,
{
    if i < n {
        lemma_request_count_grows(schema, i + 1, n);
    }
}

fn retarget_descriptors(
    descriptors: &mut Vec<Descriptor>,
    answers: &Vec<Vec<CatalogRow>>,
    base: usize,
)
    requires
        base + old(descriptors).len() <= answers.len(),
        unambiguous(answers_view(answers@)),
    ensures
        final(descriptors).len() == old(descriptors).len(),
        forall|j: int|
            0 <= j < old(descriptors).len() ==> descriptor_retargeted(
                old(descriptors)@[j],
                #[trigger] final(descriptors)@[j],
                target_of(answers_view(answers@)[base + j]),
            ),
{
    let ghost before = descriptors@;
    let mut j: usize = 0;
    while j < descriptors.len()
        invariant
            j <= descriptors.len(),
            descriptors.len() == before.len(),
            base + before.len() <= answers.len(),
            unambiguous(answers_view(answers@)),
            forall|e: int|
                0 <= e < j ==> descriptor_retargeted(
                    before[e],
                    #[trigger] descriptors@[e],
                    target_of(answers_view(answers@)[base + e]),
                ),
            forall|e: int| j <= e < before.len() ==> #[trigger] descriptors@[e] == before[e],
        decreases descriptors.len() - j,
    {
        assert(answers_view(answers@)[base + j].len() <= 1);
        let target = single_target(&answers[base + j]);
        descriptors[j].descriptor_link.target_column = target;
        j += 1;
    }
}

fn retarget_key_parts(
    links: &mut Vec<BusinessKeyPartLink>,
    answers: &Vec<Vec<CatalogRow>>,
    base: usize,
)
    requires
        base + old(links).len() <= answers.len(),
        unambiguous(answers_view(answers@)),
    ensures
        final(links).len() == old(links).len(),
        forall|j: int|
            0 <= j < old(links).len() ==> key_part_retargeted(
                old(links)@[j],
                #[trigger] final(links)@[j],
                target_of(answers_view(answers@)[base + j]),
            ),
{
    let ghost before = links@;
    let mut j: usize = 0;
    while j < links.len()
        invariant
            j <= links.len(),
            links.len() == before.len(),
            base + before.len() <= answers.len(),
            unambiguous(answers_view(answers@)),
            forall|e: int|
                0 <= e < j ==> key_part_retargeted(
                    before[e],
                    #[trigger] links@[e],
                    target_of(answers_view(answers@)[base + e]),
                ),
            forall|e: int| j <= e < before.len() ==> #[trigger] links@[e] == before[e],
        decreases links.len() - j,
    {
        assert(answers_view(answers@)[base + j].len() <= 1);
        let target = single_target(&answers[base + j]);
        links[j].target_column = target;
        j += 1;
    }
}

/// The number of requests of a schema, unless it is beyond what the machine
/// counts.
pub fn count_requests(dv_schema: &DVSchema) -> (count: Option<usize>)
    ensures
        match count {
            Some(n) => n == requests_of(dv_schema@).len(),
            None => requests_of(dv_schema@).len() > usize::MAX,
        },
{
    let n = dv_schema.business_keys.len();
    let mut count: usize = 0;
    let mut i: usize = 0;
    proof {
        lemma_request_count(dv_schema@, n as int);
    }
    while i < n
        invariant
            i <= n,
            n == dv_schema.business_keys.len(),
            count == request_count_upto(dv_schema@, i as int),
            requests_of(dv_schema@).len() == request_count_upto(dv_schema@, n as int),
        decreases n - i,
    {
        let key = &dv_schema.business_keys[i];
        assert(dv_schema@.business_keys[i as int] == key@);
        proof {
            lemma_request_count_grows(dv_schema@, i + 1, n as int);
        }
        let descriptors = key.descriptors.len();
        let links = key.business_key_part_links.len();
        if descriptors > usize::MAX - count {
            return None;
        }
        count = count + descriptors;
        if links > usize::MAX - count {
            return None;
        }
        count = count + links;
        i += 1;
    }
    Some(count)
}

/// The position of the first answer with more than one row, if there is
/// one.
pub fn find_ambiguous(answers: &Vec<Vec<CatalogRow>>) -> (found: Option<usize>)
    ensures
        match found {
            Some(k) => first_ambiguous(answers_view(answers@), k as int),
            None => unambiguous(answers_view(answers@)),
        },
{
    let mut k: usize = 0;
    while k < answers.len()
        invariant
            k <= answers.len(),
            forall|e: int| 0 <= e < k ==> (#[trigger] answers_view(answers@)[e]).len() <= 1,
        decreases answers.len() - k,
    {
        if answers[k].len() > 1 {
            assert(answers_view(answers@)[k as int].len() > 1);
            return Some(k);
        }
        assert(answers_view(answers@)[k as int].len() <= 1);
        k += 1;
    }
    None
}

/// Gives every descriptor and every key part the target that the catalog's
/// answers hold for it; `answers` holds the answer to each request of
/// `target_column_requests`, in the same order.
///
/// Where the number of answers is not the number of requests, or an answer
/// has more than one row, nothing is changed and the inconsistency is
/// returned, the count before the rows.
pub fn dv_schema_add_target_columns(
    dv_schema: &mut DVSchema,
    answers: &Vec<Vec<CatalogRow>>,
) -> (outcome: Result<(), CatalogInconsistency>)
    ensures
        match outcome {
            Ok(()) => {
                &&& answers.len() == requests_of(old(dv_schema)@).len()
                &&& unambiguous(answers_view(answers@))
                &&& final(dv_schema)@ == resolved(old(dv_schema)@, answers_view(answers@))
                &&& schema_retargeted(*old(dv_schema), *final(dv_schema), answers_view(answers@))
            },
            Err(CatalogInconsistency::AnswerCount { found }) => {
                &&& found == answers.len()
                &&& answers.len() != requests_of(old(dv_schema)@).len()
                &&& *final(dv_schema) == *old(dv_schema)
            },
            Err(CatalogInconsistency::AmbiguousColumn { request }) => {
                &&& answers.len() == requests_of(old(dv_schema)@).len()
                &&& first_ambiguous(answers_view(answers@), request as int)
                &&& *final(dv_schema) == *old(dv_schema)
            },
        },
{
    let ghost before = *dv_schema;
    let ghost given = answers_view(answers@);
    match count_requests(dv_schema) {
        Some(n) => {
            if n != answers.len() {
                return Err(CatalogInconsistency::AnswerCount { found: answers.len() });
            }
        },
        None => {
            return Err(CatalogInconsistency::AnswerCount { found: answers.len() });
        },
    }
    match find_ambiguous(answers) {
        Some(k) => {
            return Err(CatalogInconsistency::AmbiguousColumn { request: k });
        },
        None => {},
    }
    let n = dv_schema.business_keys.len();
    let mut base: usize = 0;
    let mut i: usize = 0;
    proof {
        lemma_request_count(before@, n as int);
    }
    while i < n
        invariant
            i <= n,
            n == before.business_keys.len(),
            given == answers_view(answers@),
            unambiguous(given),
            answers.len() == request_count_upto(before@, n as int),
            base == request_count_upto(before@, i as int),
            dv_schema.id == before.id,
            dv_schema.dw_schema == before.dw_schema,
            dv_schema.create_timestamp_gmt == before.create_timestamp_gmt,
            dv_schema.modified_timestamp_gmt == before.modified_timestamp_gmt,
            dv_schema.business_keys.len() == n,
            forall|a: int|
                0 <= a < i ==> key_retargeted(
                    before.business_keys@[a],
                    #[trigger] dv_schema.business_keys@[a],
                    given,
                    request_count_upto(before@, a),
                ),
            forall|a: int|
                i <= a < n ==> #[trigger] dv_schema.business_keys@[a] == before.business_keys@[a],
        decreases n - i,
    {
        proof {
            lemma_request_count_grows(before@, i + 1, n as int);
            assert(before@.business_keys[i as int] == before.business_keys@[i as int]@);
        }
        let descriptors = dv_schema.business_keys[i].descriptors.len();
        let links = dv_schema.business_keys[i].business_key_part_links.len();
        retarget_descriptors(&mut dv_schema.business_keys[i].descriptors, answers, base);
        retarget_key_parts(
            &mut dv_schema.business_keys[i].business_key_part_links,
            answers,
            base + descriptors,
        );
        base = base + descriptors + links;
        i += 1;
    }
    proof {
        lemma_schema_retargeted_view(before, *dv_schema, given);
    }
    Ok(())
}

/// What is asked for a descriptor is what the tables hold: some satellite
/// has the orbit and sensitivity that name the table asked for, and it has a
/// column under the name asked for.
pub proof fn lemma_descriptor_request_names_column(
    dw_schema: Seq<char>,
    keys: Seq<BusinessKeyView>,
    i: int,
    j: int,
)
    requires
        0 <= i < keys.len(),
        0 <= j < keys[i].descriptors.len(),
    ensures
        exists|s: int|
            {
                &&& 0 <= s < tables_of(dw_schema, keys).satellites.len()
                &&& descriptor_request_of(dw_schema, keys[i].descriptors[j]).table_name == "sat_"@
                    + satellite_label(
                    (#[trigger] tables_of(dw_schema, keys).satellites[s]).orbit,
                    tables_of(dw_schema, keys).satellites[s].is_sensitive,
                )
                &&& exists|c: int|
                    0 <= c < tables_of(dw_schema, keys).satellites[s].columns.len() && (
                    #[trigger] tables_of(dw_schema, keys).satellites[s].columns[c]).name
                        == descriptor_request_of(dw_schema, keys[i].descriptors[j]).column_name
            },
{
    lemma_satellite_consolidation(dw_schema, keys, i, j, i, j);
    let satellites = tables_of(dw_schema, keys).satellites;
    let wanted = orbiting_at(keys, i, j);
    let s = choose|s: int|
        0 <= s < satellites.len() && (#[trigger] satellites[s]).key() == wanted.key()
            && satellites[s].columns.contains(wanted.column());
    let c = choose|c: int|
        0 <= c < satellites[s].columns.len() && satellites[s].columns[c] == wanted.column();
    assert(satellites[s].columns[c].name == descriptor_request_of(
        dw_schema,
        keys[i].descriptors[j],
    ).column_name);
    assert(satellites[s].orbit == keys[i].descriptors[j].orbit);
}

/// What is asked for a key part is what the tables hold: the hub of its
/// business key is the table asked for, and the part is one of its key
/// columns.
pub proof fn lemma_key_part_request_names_column(
    dw_schema: Seq<char>,
    keys: Seq<BusinessKeyView>,
    i: int,
    j: int,
)
    requires
        0 <= i < keys.len(),
        0 <= j < keys[i].business_key_part_links.len(),
    ensures
        key_part_request_of(
            dw_schema,
            keys[i].name,
            keys[i].business_key_part_links[j],
        ).table_name == "hub_"@ + tables_of(dw_schema, keys).hubs[i].business_key_name,
        key_part_request_of(
            dw_schema,
            keys[i].name,
            keys[i].business_key_part_links[j],
        ).column_name == tables_of(dw_schema, keys).hubs[i].key_columns[j] + "_bk"@,
{
}

} // verus!
