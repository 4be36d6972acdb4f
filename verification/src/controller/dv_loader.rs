//! The load of a Data Vault: what is loaded from where.
//!
//! A hub is loaded from the source columns of its key parts. A satellite is
//! loaded, business key by business key, from the source columns of the
//! descriptors that share its orbit and sensitivity. A table whose columns are
//! not all resolved is not loaded: the defect is reported in its place.

use crate::controller::dv_tables::{satellite_label, satellite_label_text, SatelliteKey};
use crate::model::dv_schema::{
    descriptors_view, BusinessKey, BusinessKeyPartLinkView, BusinessKeyView, DVSchema,
    DVSchemaView, Descriptor, DescriptorView,
};
use crate::utility::text::{
    copy_text, each_wrapped, separate, separated, str_eq, texts_view, wrap_each,
};
use vstd::prelude::*;
use vstd::string::StringExecFns;

verus! {

/// Why a table cannot be loaded.
#[derive(Debug, Clone, Copy, PartialEq, Eq, Structural)]
pub enum LoadDefect {
    /// The business key has no part.
    NoKeyParts,
    /// The key part at this position has no source column.
    KeyPartWithoutSource { part: usize },
    /// The key part at this position has no target column.
    KeyPartWithoutTarget { part: usize },
    /// No descriptor of the business key belongs to the satellite.
    NoDescriptors,
    /// The descriptor at this position has no source column.
    DescriptorWithoutSource { descriptor: usize },
    /// The descriptor at this position has no target column.
    DescriptorWithoutTarget { descriptor: usize },
}

/// A key part as it is loaded: read from `source`, written to `alias`.
#[derive(Debug)]
pub struct KeyColumn {
    pub source: String,
    pub alias: String,
}

pub struct KeyColumnView {
    pub source: Seq<char>,
    pub alias: Seq<char>,
}

impl View for KeyColumn {
    type V = KeyColumnView;

    open spec fn view(&self) -> KeyColumnView {
        KeyColumnView { source: self.source@, alias: self.alias@ }
    }
}

/// The load of one hub.
#[derive(Debug)]
pub struct HubLoad {
    pub dw_schema: String,
    pub business_key_name: String,
    pub source_schema: String,
    pub source_table: String,
    pub key_columns: Vec<KeyColumn>,
}

pub struct HubLoadView {
    pub dw_schema: Seq<char>,
    pub business_key_name: Seq<char>,
    pub source_schema: Seq<char>,
    pub source_table: Seq<char>,
    pub key_columns: Seq<KeyColumnView>,
}

impl View for HubLoad {
    type V = HubLoadView;

    open spec fn view(&self) -> HubLoadView {
        HubLoadView {
            dw_schema: self.dw_schema@,
            business_key_name: self.business_key_name@,
            source_schema: self.source_schema@,
            source_table: self.source_table@,
            key_columns: key_columns_view(self.key_columns@),
        }
    }
}

/// A descriptor as it is loaded: read from `source`, written to `alias`.
#[derive(Debug)]
pub struct DescriptorColumn {
    pub source: String,
    pub alias: String,
}

pub struct DescriptorColumnView {
    pub source: Seq<char>,
    pub alias: Seq<char>,
}

impl View for DescriptorColumn {
    type V = DescriptorColumnView;

    open spec fn view(&self) -> DescriptorColumnView {
        DescriptorColumnView { source: self.source@, alias: self.alias@ }
    }
}

/// The load of one satellite from the descriptors of one business key.
#[derive(Debug)]
pub struct SatelliteLoad {
    pub dw_schema: String,
    pub business_key_name: String,
    pub orbit: String,
    pub is_sensitive: bool,
    pub source_schema: String,
    pub source_table: String,
    pub key_sources: Vec<String>,
    pub descriptor_columns: Vec<DescriptorColumn>,
}

pub struct SatelliteLoadView {
    pub dw_schema: Seq<char>,
    pub business_key_name: Seq<char>,
    pub orbit: Seq<char>,
    pub is_sensitive: bool,
    pub source_schema: Seq<char>,
    pub source_table: Seq<char>,
    pub key_sources: Seq<Seq<char>>,
    pub descriptor_columns: Seq<DescriptorColumnView>,
}

impl View for SatelliteLoad {
    type V = SatelliteLoadView;

    open spec fn view(&self) -> SatelliteLoadView {
        SatelliteLoadView {
            dw_schema: self.dw_schema@,
            business_key_name: self.business_key_name@,
            orbit: self.orbit@,
            is_sensitive: self.is_sensitive,
            source_schema: self.source_schema@,
            source_table: self.source_table@,
            key_sources: texts_view(self.key_sources@),
            descriptor_columns: descriptor_columns_view(self.descriptor_columns@),
        }
    }
}

pub open spec fn key_columns_view(columns: Seq<KeyColumn>) -> Seq<KeyColumnView> {
    Seq::new(columns.len(), |i: int| columns[i]@)
}

pub open spec fn descriptor_columns_view(columns: Seq<DescriptorColumn>) -> Seq<
    DescriptorColumnView,
> {
    Seq::new(columns.len(), |i: int| columns[i]@)
}

/// What the key part at `position` lacks, if it lacks anything. A hub needs
/// the target of each part, a satellite does not.
pub open spec fn key_part_defect(link: BusinessKeyPartLinkView, position: int, need_target: bool)
    -> Option<LoadDefect> {
    if link.source_columns.len() == 0 {
        Some(LoadDefect::KeyPartWithoutSource { part: position as usize })
    } else if need_target && link.target_column is None {
        Some(LoadDefect::KeyPartWithoutTarget { part: position as usize })
    } else {
        None
    }
}

/// The defect of the first key part that has one.
pub open spec fn first_key_part_defect(links: Seq<BusinessKeyPartLinkView>, need_target: bool)
    -> Option<LoadDefect>
    decreases links.len(),
{
    if links.len() == 0 {
        None
    } else {
        match first_key_part_defect(links.drop_last(), need_target) {
            Some(defect) => Some(defect),
            None => key_part_defect(links.last(), links.len() - 1, need_target),
        }
    }
}

/// Why the hub of a business key cannot be loaded, if it cannot.
pub open spec fn hub_defect(key: BusinessKeyView) -> Option<LoadDefect> {
    if key.business_key_part_links.len() == 0 {
        Some(LoadDefect::NoKeyParts)
    } else {
        first_key_part_defect(key.business_key_part_links, true)
    }
}

pub open spec fn key_column_of() -> spec_fn(BusinessKeyPartLinkView) -> KeyColumnView {
    |link: BusinessKeyPartLinkView|
        KeyColumnView { source: link.source_columns[0].column_name, alias: link.alias }
}

/// The load of the hub of a business key. The hub is loaded from the table
/// of the first source column of the last key part.
pub open spec fn hub_load_of(dw_schema: Seq<char>, key: BusinessKeyView) -> HubLoadView {
    HubLoadView {
        dw_schema,
        business_key_name: key.name,
        source_schema: key.business_key_part_links.last().source_columns[0].schema_name,
        source_table: key.business_key_part_links.last().source_columns[0].table_name,
        key_columns: key.business_key_part_links.map_values(key_column_of()),
    }
}

pub open spec fn key_of(descriptor: DescriptorView) -> SatelliteKey {
    SatelliteKey { orbit: descriptor.orbit, is_sensitive: descriptor.is_sensitive }
}

pub open spec fn in_satellite(key: SatelliteKey) -> spec_fn(DescriptorView) -> bool {
    |descriptor: DescriptorView| key_of(descriptor) == key
}

/// What the descriptor at `position` lacks, if it lacks anything.
pub open spec fn descriptor_defect(descriptor: DescriptorView, position: int) -> Option<
    LoadDefect,
> {
    if descriptor.descriptor_link.source_column is None {
        Some(LoadDefect::DescriptorWithoutSource { descriptor: position as usize })
    } else if descriptor.descriptor_link.target_column is None {
        Some(LoadDefect::DescriptorWithoutTarget { descriptor: position as usize })
    } else {
        None
    }
}

/// The defect of the first descriptor of the satellite that has one.
pub open spec fn first_descriptor_defect(descriptors: Seq<DescriptorView>, key: SatelliteKey)
    -> Option<LoadDefect>
    decreases descriptors.len(),
{
    if descriptors.len() == 0 {
        None
    } else {
        match first_descriptor_defect(descriptors.drop_last(), key) {
            Some(defect) => Some(defect),
            None => if key_of(descriptors.last()) == key {
                descriptor_defect(descriptors.last(), descriptors.len() - 1)
            } else {
                None
            },
        }
    }
}

/// Why a satellite cannot be loaded from a business key, if it cannot: the
/// key parts come first, then the descriptors.
pub open spec fn satellite_defect(key: BusinessKeyView, satellite: SatelliteKey) -> Option<
    LoadDefect,
> {
    if key.business_key_part_links.len() == 0 {
        Some(LoadDefect::NoKeyParts)
    } else {
        match first_key_part_defect(key.business_key_part_links, false) {
            Some(defect) => Some(defect),
            None => if key.descriptors.filter(in_satellite(satellite)).len() == 0 {
                Some(LoadDefect::NoDescriptors)
            } else {
                first_descriptor_defect(key.descriptors, satellite)
            },
        }
    }
}

pub open spec fn key_source_of() -> spec_fn(BusinessKeyPartLinkView) -> Seq<char> {
    |link: BusinessKeyPartLinkView| link.source_columns[0].column_name
}

pub open spec fn descriptor_column_of() -> spec_fn(DescriptorView) -> DescriptorColumnView {
    |descriptor: DescriptorView|
        DescriptorColumnView {
            source: descriptor.descriptor_link.source_column->0.column_name,
            alias: descriptor.descriptor_link.alias,
        }
}

/// The load of a satellite from a business key: the descriptors of the
/// satellite in their order, read from the table of the first of them.
pub open spec fn satellite_load_of(
    dw_schema: Seq<char>,
    key: BusinessKeyView,
    satellite: SatelliteKey,
) -> SatelliteLoadView {
    let members = key.descriptors.filter(in_satellite(satellite));
    SatelliteLoadView {
        dw_schema,
        business_key_name: key.name,
        orbit: satellite.orbit,
        is_sensitive: satellite.is_sensitive,
        source_schema: members.first().descriptor_link.source_column->0.schema_name,
        source_table: members.first().descriptor_link.source_column->0.table_name,
        key_sources: key.business_key_part_links.map_values(key_source_of()),
        descriptor_columns: members.map_values(descriptor_column_of()),
    }
}

/// Plans the load of a hub. It fails exactly if the business key has no part
/// or one of its parts lacks a source or a target column, and then names the
/// first such defect.
pub fn plan_hub_load(dw_schema: &str, key: &BusinessKey) -> (outcome: Result<HubLoad, LoadDefect>)
    ensures
        match outcome {
            Ok(load) => hub_defect(key@) is None && load@ == hub_load_of(dw_schema@, key@),
            Err(defect) => hub_defect(key@) == Some(defect),
        },
{
    let ghost links = key@.business_key_part_links;
    let n = key.business_key_part_links.len();
    if n == 0 {
        return Err(LoadDefect::NoKeyParts);
    }
    let mut key_columns: Vec<KeyColumn> = Vec::new();
    let mut i: usize = 0;
    assert(links.take(0) =~= Seq::empty());
    while i < n
        invariant
            i <= n,
            n == key.business_key_part_links.len(),
            links == key@.business_key_part_links,
            first_key_part_defect(links.take(i as int), true) is None,
            key_columns.len() == i,
            forall|j: int|
                0 <= j < i ==> (#[trigger] key_columns@[j])@ == key_column_of()(links[j]),
        decreases n - i,
    {
        let link = &key.business_key_part_links[i];
        proof {
            assert(links.take(i + 1).drop_last() =~= links.take(i as int));
            assert(links.take(i + 1).last() == link@);
        }
        if link.source_columns.len() == 0 {
            proof {
                lemma_key_part_defect_stays(links, i + 1, true);
            }
            return Err(LoadDefect::KeyPartWithoutSource { part: i });
        }
        if link.target_column.is_none() {
            proof {
                lemma_key_part_defect_stays(links, i + 1, true);
            }
            return Err(LoadDefect::KeyPartWithoutTarget { part: i });
        }
        key_columns.push(
            KeyColumn {
                source: copy_text(&link.source_columns[0].column_name),
                alias: copy_text(&link.alias),
            },
        );
        i += 1;
    }
    let last = &key.business_key_part_links[n - 1];
    assert(last.source_columns.len() > 0) by {
        assert(links.take(n as int) =~= links);
        lemma_key_parts_sourced(links, true, n - 1);
    }
    let load = HubLoad {
        dw_schema: dw_schema.to_owned(),
        business_key_name: copy_text(&key.name),
        source_schema: copy_text(&last.source_columns[0].schema_name),
        source_table: copy_text(&last.source_columns[0].table_name),
        key_columns,
    };
    proof {
        assert(links.take(n as int) =~= links);
        assert(load@.key_columns =~= hub_load_of(dw_schema@, key@).key_columns);
    }
    Ok(load)
}

/// A defect among the first `n` key parts is the defect of them all.
pub proof fn lemma_key_part_defect_stays(
    links: Seq<BusinessKeyPartLinkView>,
    n: int,
    need_target: bool,
)
    requires
        0 <= n <= links.len(),
        first_key_part_defect(links.take(n), need_target) is Some,
    ensures
        first_key_part_defect(links, need_target) == first_key_part_defect(
            links.take(n),
            need_target,
        ),
    decreases links.len() - n,
{
    if n < links.len() {
        assert(links.take(n + 1).drop_last() =~= links.take(n));
        lemma_key_part_defect_stays(links, n + 1, need_target);
    } else {
        assert(links.take(n) =~= links);
    }
}

/// Where no key part has a defect, each has a source column, and a target
/// column where one is needed.
pub proof fn lemma_key_parts_sourced(
    links: Seq<BusinessKeyPartLinkView>,
    need_target: bool,
    i: int,
)
    requires
        first_key_part_defect(links, need_target) is None,
        0 <= i < links.len(),
    ensures
        links[i].source_columns.len() > 0,
        need_target ==> links[i].target_column is Some,
    decreases links.len(),
{
    if i < links.len() - 1 {
        lemma_key_parts_sourced(links.drop_last(), need_target, i);
    }
}

/// A defect among the first `n` descriptors is the defect of them all.
pub proof fn lemma_descriptor_defect_stays(
    descriptors: Seq<DescriptorView>,
    n: int,
    key: SatelliteKey,
)
    requires
        0 <= n <= descriptors.len(),
        first_descriptor_defect(descriptors.take(n), key) is Some,
    ensures
        first_descriptor_defect(descriptors, key) == first_descriptor_defect(
            descriptors.take(n),
            key,
        ),
    decreases descriptors.len() - n,
{
    if n < descriptors.len() {
        assert(descriptors.take(n + 1).drop_last() =~= descriptors.take(n));
        lemma_descriptor_defect_stays(descriptors, n + 1, key);
    } else {
        assert(descriptors.take(n) =~= descriptors);
    }
}

/// Plans the load of the satellite with the given orbit and sensitivity from
/// one business key. It fails exactly if the business key has no part, a part
/// has no source column, no descriptor belongs to the satellite, or one that
/// does lacks a source or a target column; it then names the first such
/// defect, the key parts before the descriptors.
pub fn plan_satellite_load(
    dw_schema: &str,
    key: &BusinessKey,
    orbit: &str,
    is_sensitive: bool,
) -> (outcome: Result<SatelliteLoad, LoadDefect>)
    ensures
        match outcome {
            Ok(load) => satellite_defect(key@, SatelliteKey { orbit: orbit@, is_sensitive })
                is None && load@ == satellite_load_of(
                dw_schema@,
                key@,
                SatelliteKey { orbit: orbit@, is_sensitive },
            ),
            Err(defect) => satellite_defect(key@, SatelliteKey { orbit: orbit@, is_sensitive })
                == Some(defect),
        },
{
    let ghost satellite = SatelliteKey { orbit: orbit@, is_sensitive };
    let ghost links = key@.business_key_part_links;
    let ghost descriptors = key@.descriptors;
    let n = key.business_key_part_links.len();
    if n == 0 {
        return Err(LoadDefect::NoKeyParts);
    }
    let mut key_sources: Vec<String> = Vec::new();
    let mut i: usize = 0;
    assert(links.take(0) =~= Seq::empty());
    while i < n
        invariant
            i <= n,
            n == key.business_key_part_links.len(),
            links == key@.business_key_part_links,
            first_key_part_defect(links.take(i as int), false) is None,
            key_sources.len() == i,
            forall|j: int|
                0 <= j < i ==> (#[trigger] key_sources@[j])@ == key_source_of()(links[j]),
        decreases n - i,
    {
        let link = &key.business_key_part_links[i];
        proof {
            assert(links.take(i + 1).drop_last() =~= links.take(i as int));
            assert(links.take(i + 1).last() == link@);
        }
        if link.source_columns.len() == 0 {
            proof {
                lemma_key_part_defect_stays(links, i + 1, false);
            }
            return Err(LoadDefect::KeyPartWithoutSource { part: i });
        }
        key_sources.push(copy_text(&link.source_columns[0].column_name));
        i += 1;
    }
    assert(links.take(n as int) =~= links);
    let mut descriptor_columns: Vec<DescriptorColumn> = Vec::new();
    let mut source_schema = String::new();
    let mut source_table = String::new();
    let m = key.descriptors.len();
    let mut j: usize = 0;
    assert(descriptors.take(0) =~= Seq::empty());
    while j < m
        invariant
            j <= m,
            m == key.descriptors.len(),
            descriptors == key@.descriptors,
            links == key@.business_key_part_links,
            links.len() > 0,
            first_key_part_defect(links, false) is None,
            satellite == (SatelliteKey { orbit: orbit@, is_sensitive }),
            first_descriptor_defect(descriptors.take(j as int), satellite) is None,
            descriptor_columns_view(descriptor_columns@) == descriptors.take(j as int).filter(
                in_satellite(satellite),
            ).map_values(descriptor_column_of()),
            descriptor_columns.len() > 0 ==> {
                let first = descriptors.take(j as int).filter(in_satellite(satellite)).first();
                &&& source_schema@ == first.descriptor_link.source_column->0.schema_name
                &&& source_table@ == first.descriptor_link.source_column->0.table_name
            },
        decreases m - j,
    {
        let descriptor = &key.descriptors[j];
        let ghost members = descriptors.take(j as int).filter(in_satellite(satellite));
        proof {
            assert(descriptors.take(j + 1).drop_last() =~= descriptors.take(j as int));
            assert(descriptors.take(j + 1) =~= descriptors.take(j as int).push(descriptor@));
            descriptors.take(j as int).lemma_filter_push(descriptor@, in_satellite(satellite));
        }
        if descriptor.is_sensitive == is_sensitive && str_eq(descriptor.orbit.as_str(), orbit) {
            proof {
                assert(descriptors.take(j + 1).filter(in_satellite(satellite)) == members.push(
                    descriptor@,
                ));
                assert(descriptors.take(j + 1).filter(in_satellite(satellite)).len() > 0);
                assert(descriptors.take(j + 1).is_prefix_of(descriptors));
                descriptors.take(j + 1).lemma_filter_monotone(
                    descriptors,
                    in_satellite(satellite),
                );
            }
            let source = match &descriptor.descriptor_link.source_column {
                Some(source) => source,
                None => {
                    proof {
                        lemma_descriptor_defect_stays(descriptors, j + 1, satellite);
                    }
                    return Err(LoadDefect::DescriptorWithoutSource { descriptor: j });
                },
            };
            if descriptor.descriptor_link.target_column.is_none() {
                proof {
                    lemma_descriptor_defect_stays(descriptors, j + 1, satellite);
                }
                return Err(LoadDefect::DescriptorWithoutTarget { descriptor: j });
            }
            if descriptor_columns.len() == 0 {
                source_schema = copy_text(&source.schema_name);
                source_table = copy_text(&source.table_name);
            }
            let column = DescriptorColumn {
                source: copy_text(&source.column_name),
                alias: copy_text(&descriptor.descriptor_link.alias),
            };
            assert(column@ == descriptor_column_of()(descriptor@));
            descriptor_columns.push(column);
            proof {
                assert(descriptor_columns_view(descriptor_columns@) =~= members.map_values(
                    descriptor_column_of(),
                ).push(descriptor_column_of()(descriptor@)));
                assert(members.push(descriptor@).map_values(descriptor_column_of())
                    =~= members.map_values(descriptor_column_of()).push(
                    descriptor_column_of()(descriptor@),
                ));
            }
        }
        j += 1;
    }
    assert(descriptors.take(m as int) =~= descriptors);
    if descriptor_columns.len() == 0 {
        return Err(LoadDefect::NoDescriptors);
    }
    let load = SatelliteLoad {
        dw_schema: dw_schema.to_owned(),
        business_key_name: copy_text(&key.name),
        orbit: orbit.to_owned(),
        is_sensitive,
        source_schema,
        source_table,
        key_sources,
        descriptor_columns,
    };
    proof {
        assert(load@.key_sources =~= satellite_load_of(dw_schema@, key@, satellite).key_sources);
    }
    Ok(load)
}

pub open spec fn key_aliases_of(columns: Seq<KeyColumnView>) -> Seq<Seq<char>> {
    Seq::new(columns.len(), |i: int| columns[i].alias)
}

pub open spec fn key_sources_of(columns: Seq<KeyColumnView>) -> Seq<Seq<char>> {
    Seq::new(columns.len(), |i: int| columns[i].source)
}

pub open spec fn descriptor_aliases_of(columns: Seq<DescriptorColumnView>) -> Seq<Seq<char>> {
    Seq::new(columns.len(), |i: int| columns[i].alias)
}

pub open spec fn descriptor_sources_of(columns: Seq<DescriptorColumnView>) -> Seq<Seq<char>> {
    Seq::new(columns.len(), |i: int| columns[i].source)
}

fn key_aliases(columns: &Vec<KeyColumn>) -> (aliases: Vec<String>)
    ensures
        texts_view(aliases@) == key_aliases_of(key_columns_view(columns@)),
{
    let mut aliases: Vec<String> = Vec::new();
    let mut i: usize = 0;
    while i < columns.len()
        invariant
            i <= columns.len(),
            aliases.len() == i,
            forall|j: int| 0 <= j < i ==> (#[trigger] aliases@[j])@ == columns@[j].alias@,
        decreases columns.len() - i,
    {
        aliases.push(copy_text(&columns[i].alias));
        i += 1;
    }
    assert(texts_view(aliases@) =~= key_aliases_of(key_columns_view(columns@)));
    aliases
}

fn key_sources(columns: &Vec<KeyColumn>) -> (sources: Vec<String>)
    ensures
        texts_view(sources@) == key_sources_of(key_columns_view(columns@)),
{
    let mut sources: Vec<String> = Vec::new();
    let mut i: usize = 0;
    while i < columns.len()
        invariant
            i <= columns.len(),
            sources.len() == i,
            forall|j: int| 0 <= j < i ==> (#[trigger] sources@[j])@ == columns@[j].source@,
        decreases columns.len() - i,
    {
        sources.push(copy_text(&columns[i].source));
        i += 1;
    }
    assert(texts_view(sources@) =~= key_sources_of(key_columns_view(columns@)));
    sources
}

fn descriptor_aliases(columns: &Vec<DescriptorColumn>) -> (aliases: Vec<String>)
    ensures
        texts_view(aliases@) == descriptor_aliases_of(descriptor_columns_view(columns@)),
{
    let mut aliases: Vec<String> = Vec::new();
    let mut i: usize = 0;
    while i < columns.len()
        invariant
            i <= columns.len(),
            aliases.len() == i,
            forall|j: int| 0 <= j < i ==> (#[trigger] aliases@[j])@ == columns@[j].alias@,
        decreases columns.len() - i,
    {
        aliases.push(copy_text(&columns[i].alias));
        i += 1;
    }
    assert(texts_view(aliases@) =~= descriptor_aliases_of(descriptor_columns_view(columns@)));
    aliases
}

fn descriptor_sources(columns: &Vec<DescriptorColumn>) -> (sources: Vec<String>)
    ensures
        texts_view(sources@) == descriptor_sources_of(descriptor_columns_view(columns@)),
{
    let mut sources: Vec<String> = Vec::new();
    let mut i: usize = 0;
    while i < columns.len()
        invariant
            i <= columns.len(),
            sources.len() == i,
            forall|j: int| 0 <= j < i ==> (#[trigger] sources@[j])@ == columns@[j].source@,
        decreases columns.len() - i,
    {
        sources.push(copy_text(&columns[i].source));
        i += 1;
    }
    assert(texts_view(sources@) =~= descriptor_sources_of(descriptor_columns_view(columns@)));
    sources
}

/// The key parts as they are staged: each source column as text, under the
/// name of its hub column.
pub open spec fn staged_key_columns_text(columns: Seq<KeyColumnView>) -> Seq<char>
    decreases columns.len(),
{
    if columns.len() == 0 {
        Seq::empty()
    } else {
        staged_key_columns_text(columns.drop_last()) + ",\n        stg."@ + columns.last().source
            + "::TEXT AS "@ + columns.last().alias + "_bk"@
    }
}

fn staged_key_columns_sql(columns: &Vec<KeyColumn>) -> (sql: String)
    ensures
        sql@ == staged_key_columns_text(key_columns_view(columns@)),
{
    let ghost all = key_columns_view(columns@);
    let mut sql = String::new();
    let mut i: usize = 0;
    assert(all.take(0) =~= Seq::empty());
    while i < columns.len()
        invariant
            i <= columns.len(),
            all == key_columns_view(columns@),
            sql@ == staged_key_columns_text(all.take(i as int)),
        decreases columns.len() - i,
    {
        proof {
            assert(all.take(i + 1).drop_last() =~= all.take(i as int));
            assert(all.take(i + 1).last() == columns@[i as int]@);
        }
        sql.append(",\n        stg.");
        sql.append(columns[i].source.as_str());
        sql.append("::TEXT AS ");
        sql.append(columns[i].alias.as_str());
        sql.append("_bk");
        i += 1;
    }
    assert(all.take(columns.len() as int) =~= all);
    sql
}

/// The SHA-256 digest, in hexadecimal, of the staged columns as text, joined
/// by commas in the order given.
pub open spec fn digest_text(columns: Seq<Seq<char>>) -> Seq<char> {
    "ENCODE(PUBLIC.DIGEST(ARRAY_TO_STRING(ARRAY["@ + separated(columns, ", "@, "stg."@, "::TEXT"@)
        + "], ','), 'sha256'), 'hex')"@
}

/// Writes the digest over the given staged columns.
pub fn digest_sql(columns: &Vec<String>) -> (sql: String)
    ensures
        sql@ == digest_text(texts_view(columns@)),
{
    let list = separate(columns, ", ", "stg.", "::TEXT");
    let mut sql = String::from_str("ENCODE(PUBLIC.DIGEST(ARRAY_TO_STRING(ARRAY[");
    sql.append(list.as_str());
    sql.append("], ','), 'sha256'), 'hex')");
    sql
}

/// The head of an insert into a hub: the hub and its columns.
pub open spec fn hub_insert_header_text(load: HubLoadView) -> Seq<char> {
    "INSERT INTO "@ + load.dw_schema + ".hub_"@ + load.business_key_name + " (\n    hub_"@
        + load.business_key_name + "_hk,\n    load_ts,\n    record_source"@
        + each_wrapped(key_aliases_of(load.key_columns), ",\n    "@, "_bk"@) + "\n)\n"@
}

/// One ghost record: every key part holds `value`, the load time is the
/// first day of year one, and the record source is the system. It is
/// selected only while the hub is not initialized.
pub open spec fn sentinel_select_text(load: HubLoadView, value: Seq<char>) -> Seq<char> {
    "SELECT\n    ENCODE(PUBLIC.DIGEST(ARRAY_TO_STRING(ARRAY["@ + value
        + "], ',')::TEXT, 'sha256'), 'hex') AS hub_"@ + load.business_key_name
        + "_hk,\n    '0001-01-01'::TIMESTAMP WITHOUT TIME ZONE AS load_ts,\n    'SYSTEM'::TEXT AS record_source"@
        + each_wrapped(key_aliases_of(load.key_columns), ",\n    '"@ + value + "'::TEXT AS "@, "_bk"@)
        + "\nFROM initialized WHERE NOT initialized.is_initialized\n"@
}

/// The statement that gives an empty hub its two ghost records, `-1` for
/// the unknown key and `-2` for the key that does not apply. A hub that
/// holds a row counts as initialized and gets none.
pub open spec fn hub_init_text(load: HubLoadView) -> Seq<char> {
    hub_insert_header_text(load)
        + "WITH initialized AS (\n    SELECT\n        CASE\n            WHEN COUNT(*) > 0 THEN TRUE\n            ELSE FALSE\n        END AS is_initialized\n    FROM "@
        + load.dw_schema + ".hub_"@ + load.business_key_name + "\n)\n"@
        + sentinel_select_text(load, "-1"@) + "UNION\n"@ + sentinel_select_text(load, "-2"@)
        + ";\n"@
}

/// The statement that loads a hub: the staged rows whose hash key the hub
/// does not hold yet.
pub open spec fn hub_load_text(load: HubLoadView) -> Seq<char> {
    hub_insert_header_text(load) + "WITH\nstg_data AS (\n    SELECT\n        "@
        + digest_text(key_sources_of(load.key_columns)) + " AS hub_"@ + load.business_key_name
        + "_hk,\n        (CURRENT_TIMESTAMP AT TIME ZONE 'UTC')::TIMESTAMP(6) AS load_ts,\n        '"@
        + load.source_schema + "' AS record_source"@ + staged_key_columns_text(load.key_columns)
        + "\n    FROM "@ + load.source_schema + "."@ + load.source_table
        + " AS stg\n),\nnew_stg_data AS (\n    SELECT stg_data.* FROM stg_data\n    LEFT JOIN "@
        + load.dw_schema + ".hub_"@ + load.business_key_name + " ON stg_data.hub_"@
        + load.business_key_name + "_hk = hub_"@ + load.business_key_name + ".hub_"@
        + load.business_key_name + "_hk\n    WHERE hub_"@ + load.business_key_name + ".hub_"@
        + load.business_key_name + "_hk IS NULL\n)\nSELECT\n    hub_"@ + load.business_key_name
        + "_hk,\n    load_ts,\n    record_source"@
        + each_wrapped(key_aliases_of(load.key_columns), ",\n    "@, "_bk"@)
        + "\nFROM new_stg_data\n;\n"@
}

impl HubLoad {
    /// The head of an insert into the hub.
    fn insert_header(&self) -> (sql: String)
        ensures
            sql@ == hub_insert_header_text(self@),
    {
        let aliases = key_aliases(&self.key_columns);
        let names = wrap_each(&aliases, ",\n    ", "_bk");
        let mut sql = String::from_str("INSERT INTO ");
        sql.append(self.dw_schema.as_str());
        sql.append(".hub_");
        sql.append(self.business_key_name.as_str());
        sql.append(" (\n    hub_");
        sql.append(self.business_key_name.as_str());
        sql.append("_hk,\n    load_ts,\n    record_source");
        sql.append(names.as_str());
        sql.append("\n)\n");
        sql
    }

    /// One ghost record whose key parts hold `value`.
    fn sentinel_select(&self, value: &str) -> (sql: String)
        ensures
            sql@ == sentinel_select_text(self@, value@),
    {
        let aliases = key_aliases(&self.key_columns);
        let mut before = String::from_str(",\n    '");
        before.append(value);
        before.append("'::TEXT AS ");
        let sentinels = wrap_each(&aliases, before.as_str(), "_bk");
        let mut sql = String::from_str("SELECT\n    ENCODE(PUBLIC.DIGEST(ARRAY_TO_STRING(ARRAY[");
        sql.append(value);
        sql.append("], ',')::TEXT, 'sha256'), 'hex') AS hub_");
        sql.append(self.business_key_name.as_str());
        sql.append(
            "_hk,\n    '0001-01-01'::TIMESTAMP WITHOUT TIME ZONE AS load_ts,\n    'SYSTEM'::TEXT AS record_source",
        );
        sql.append(sentinels.as_str());
        sql.append("\nFROM initialized WHERE NOT initialized.is_initialized\n");
        sql
    }

    /// The statement that gives the hub its two ghost records while it is
    /// empty.
    pub fn init_statement(&self) -> (sql: String)
        ensures
            sql@ == hub_init_text(self@),
    {
        let unknown = self.sentinel_select("-1");
        let not_applicable = self.sentinel_select("-2");
        let mut sql = self.insert_header();
        sql.append(
            "WITH initialized AS (\n    SELECT\n        CASE\n            WHEN COUNT(*) > 0 THEN TRUE\n            ELSE FALSE\n        END AS is_initialized\n    FROM ",
        );
        sql.append(self.dw_schema.as_str());
        sql.append(".hub_");
        sql.append(self.business_key_name.as_str());
        sql.append("\n)\n");
        sql.append(unknown.as_str());
        sql.append("UNION\n");
        sql.append(not_applicable.as_str());
        sql.append(";\n");
        sql
    }

    /// The statement that loads the staged rows whose hash key the hub does
    /// not hold yet.
    pub fn load_statement(&self) -> (sql: String)
        ensures
            sql@ == hub_load_text(self@),
    {
        let aliases = key_aliases(&self.key_columns);
        let names = wrap_each(&aliases, ",\n    ", "_bk");
        let sources = key_sources(&self.key_columns);
        let digest = digest_sql(&sources);
        let staged = staged_key_columns_sql(&self.key_columns);
        let mut sql = self.insert_header();
        sql.append("WITH\nstg_data AS (\n    SELECT\n        ");
        sql.append(digest.as_str());
        sql.append(" AS hub_");
        sql.append(self.business_key_name.as_str());
        sql.append(
            "_hk,\n        (CURRENT_TIMESTAMP AT TIME ZONE 'UTC')::TIMESTAMP(6) AS load_ts,\n        '",
        );
        sql.append(self.source_schema.as_str());
        sql.append("' AS record_source");
        sql.append(staged.as_str());
        sql.append("\n    FROM ");
        sql.append(self.source_schema.as_str());
        sql.append(".");
        sql.append(self.source_table.as_str());
        sql.append(
            " AS stg\n),\nnew_stg_data AS (\n    SELECT stg_data.* FROM stg_data\n    LEFT JOIN ",
        );
        sql.append(self.dw_schema.as_str());
        sql.append(".hub_");
        sql.append(self.business_key_name.as_str());
        sql.append(" ON stg_data.hub_");
        sql.append(self.business_key_name.as_str());
        sql.append("_hk = hub_");
        sql.append(self.business_key_name.as_str());
        sql.append(".hub_");
        sql.append(self.business_key_name.as_str());
        sql.append("_hk\n    WHERE hub_");
        sql.append(self.business_key_name.as_str());
        sql.append(".hub_");
        sql.append(self.business_key_name.as_str());
        sql.append("_hk IS NULL\n)\nSELECT\n    hub_");
        sql.append(self.business_key_name.as_str());
        sql.append("_hk,\n    load_ts,\n    record_source");
        sql.append(names.as_str());
        sql.append("\nFROM new_stg_data\n;\n");
        sql
    }

}

/// The head of an insert into a satellite: the satellite and its columns.
pub open spec fn satellite_insert_header_text(load: SatelliteLoadView) -> Seq<char> {
    "INSERT INTO "@ + load.dw_schema + ".sat_"@ + satellite_label(load.orbit, load.is_sensitive)
        + " (\n    hub_"@ + load.business_key_name
        + "_hk,\n    load_ts,\n    record_source,\n    sat_"@
        + satellite_label(load.orbit, load.is_sensitive) + "_hd"@
        + each_wrapped(descriptor_aliases_of(load.descriptor_columns), ",\n    "@, ""@) + "\n)\n"@
}

/// The statement that loads a satellite: the staged rows whose pair of hash
/// key and hash diff the satellite does not hold yet. A changed descriptor
/// gives a new hash diff and so a new row; no row is updated.
pub open spec fn satellite_load_text(load: SatelliteLoadView) -> Seq<char> {
    satellite_insert_header_text(load) + "WITH stg AS (\n    SELECT\n        *,\n        "@
        + digest_text(load.key_sources) + " AS hub_"@ + load.business_key_name + "_hk,\n        "@
        + digest_text(descriptor_sources_of(load.descriptor_columns)) + " AS sat_"@
        + satellite_label(load.orbit, load.is_sensitive) + "_hd\n    FROM "@ + load.source_schema
        + "."@ + load.source_table
        + " AS stg\n),\nnew_stg_data AS (\n    SELECT stg.*\n    FROM stg\n    LEFT JOIN "@
        + load.dw_schema + ".sat_"@ + satellite_label(load.orbit, load.is_sensitive)
        + " ON\n        stg.hub_"@ + load.business_key_name + "_hk = sat_"@
        + satellite_label(load.orbit, load.is_sensitive) + ".hub_"@ + load.business_key_name
        + "_hk AND\n        stg.sat_"@ + satellite_label(load.orbit, load.is_sensitive)
        + "_hd = sat_"@ + satellite_label(load.orbit, load.is_sensitive) + ".sat_"@
        + satellite_label(load.orbit, load.is_sensitive) + "_hd\n    WHERE sat_"@
        + satellite_label(load.orbit, load.is_sensitive) + ".hub_"@ + load.business_key_name
        + "_hk IS NULL\n)\nSELECT\n    hub_"@ + load.business_key_name
        + "_hk,\n    (CURRENT_TIMESTAMP AT TIME ZONE 'UTC')::TIMESTAMP WITHOUT TIME ZONE AS load_ts,\n    '"@
        + load.source_schema + "' AS record_source,\n    sat_"@
        + satellite_label(load.orbit, load.is_sensitive) + "_hd"@
        + each_wrapped(descriptor_sources_of(load.descriptor_columns), ",\n    "@, ""@)
        + "\nFROM new_stg_data\n;\n"@
}

impl SatelliteLoad {
    /// The head of an insert into the satellite.
    fn insert_header(&self) -> (sql: String)
        ensures
            sql@ == satellite_insert_header_text(self@),
    {
        let label = satellite_label_text(self.orbit.as_str(), self.is_sensitive);
        let aliases = descriptor_aliases(&self.descriptor_columns);
        let names = wrap_each(&aliases, ",\n    ", "");
        let mut sql = String::from_str("INSERT INTO ");
        sql.append(self.dw_schema.as_str());
        sql.append(".sat_");
        sql.append(label.as_str());
        sql.append(" (\n    hub_");
        sql.append(self.business_key_name.as_str());
        sql.append("_hk,\n    load_ts,\n    record_source,\n    sat_");
        sql.append(label.as_str());
        sql.append("_hd");
        sql.append(names.as_str());
        sql.append("\n)\n");
        sql
    }

    /// The statement that loads the staged rows whose pair of hash key and
    /// hash diff the satellite does not hold yet.
    pub fn load_statement(&self) -> (sql: String)
        ensures
            sql@ == satellite_load_text(self@),
    {
        let label = satellite_label_text(self.orbit.as_str(), self.is_sensitive);
        let sources = descriptor_sources(&self.descriptor_columns);
        let columns = wrap_each(&sources, ",\n    ", "");
        let key_digest = digest_sql(&self.key_sources);
        let diff_digest = digest_sql(&sources);
        let mut sql = self.insert_header();
        sql.append("WITH stg AS (\n    SELECT\n        *,\n        ");
        sql.append(key_digest.as_str());
        sql.append(" AS hub_");
        sql.append(self.business_key_name.as_str());
        sql.append("_hk,\n        ");
        sql.append(diff_digest.as_str());
        sql.append(" AS sat_");
        sql.append(label.as_str());
        sql.append("_hd\n    FROM ");
        sql.append(self.source_schema.as_str());
        sql.append(".");
        sql.append(self.source_table.as_str());
        sql.append(
            " AS stg\n),\nnew_stg_data AS (\n    SELECT stg.*\n    FROM stg\n    LEFT JOIN ",
        );
        sql.append(self.dw_schema.as_str());
        sql.append(".sat_");
        sql.append(label.as_str());
        sql.append(" ON\n        stg.hub_");
        sql.append(self.business_key_name.as_str());
        sql.append("_hk = sat_");
        sql.append(label.as_str());
        sql.append(".hub_");
        sql.append(self.business_key_name.as_str());
        sql.append("_hk AND\n        stg.sat_");
        sql.append(label.as_str());
        sql.append("_hd = sat_");
        sql.append(label.as_str());
        sql.append(".sat_");
        sql.append(label.as_str());
        sql.append("_hd\n    WHERE sat_");
        sql.append(label.as_str());
        sql.append(".hub_");
        sql.append(self.business_key_name.as_str());
        sql.append("_hk IS NULL\n)\nSELECT\n    hub_");
        sql.append(self.business_key_name.as_str());
        sql.append(
            "_hk,\n    (CURRENT_TIMESTAMP AT TIME ZONE 'UTC')::TIMESTAMP WITHOUT TIME ZONE AS load_ts,\n    '",
        );
        sql.append(self.source_schema.as_str());
        sql.append("' AS record_source,\n    sat_");
        sql.append(label.as_str());
        sql.append("_hd");
        sql.append(columns.as_str());
        sql.append("\nFROM new_stg_data\n;\n");
        sql
    }

}

/// A satellite hashes the business key as its hub does: both take the digest
/// of the same source columns in the same order.
pub proof fn lemma_satellite_hashes_as_hub(
    dw_schema: Seq<char>,
    key: BusinessKeyView,
    satellite: SatelliteKey,
)
    ensures
        satellite_load_of(dw_schema, key, satellite).key_sources == key_sources_of(
            hub_load_of(dw_schema, key).key_columns,
        ),
        digest_text(satellite_load_of(dw_schema, key, satellite).key_sources) == digest_text(
            key_sources_of(hub_load_of(dw_schema, key).key_columns),
        ),
{
    assert(satellite_load_of(dw_schema, key, satellite).key_sources =~= key_sources_of(
        hub_load_of(dw_schema, key).key_columns,
    ));
}

/// A table that is not loaded, and why.
#[derive(Debug)]
pub struct BlockedTable {
    pub business_key: usize,
    pub table_name: String,
    pub defect: LoadDefect,
}

pub struct BlockedTableView {
    pub business_key: int,
    pub table_name: Seq<char>,
    pub defect: LoadDefect,
}

impl View for BlockedTable {
    type V = BlockedTableView;

    open spec fn view(&self) -> BlockedTableView {
        BlockedTableView {
            business_key: self.business_key as int,
            table_name: self.table_name@,
            defect: self.defect,
        }
    }
}

/// The load statements of the tables that can be loaded, and the tables that
/// cannot.
#[derive(Debug)]
pub struct LoadBatch {
    pub sql: String,
    pub blocked: Vec<BlockedTable>,
}

pub struct LoadBatchView {
    pub sql: Seq<char>,
    pub blocked: Seq<BlockedTableView>,
}

impl View for LoadBatch {
    type V = LoadBatchView;

    open spec fn view(&self) -> LoadBatchView {
        LoadBatchView { sql: self.sql@, blocked: blocked_view(self.blocked@) }
    }
}

pub open spec fn blocked_view(blocked: Seq<BlockedTable>) -> Seq<BlockedTableView> {
    Seq::new(blocked.len(), |i: int| blocked[i]@)
}

impl LoadBatchView {
    pub open spec fn empty() -> LoadBatchView {
        LoadBatchView { sql: Seq::empty(), blocked: Seq::empty() }
    }

    /// This batch with one more statement.
    pub open spec fn with_statement(self, statement: Seq<char>) -> LoadBatchView {
        LoadBatchView { sql: self.sql + statement, blocked: self.blocked }
    }

    /// This batch with one more table that is not loaded.
    pub open spec fn with_blocked(self, table: BlockedTableView) -> LoadBatchView {
        LoadBatchView { sql: self.sql, blocked: self.blocked.push(table) }
    }

    /// This batch followed by another.
    pub open spec fn followed_by(self, other: LoadBatchView) -> LoadBatchView {
        LoadBatchView { sql: self.sql + other.sql, blocked: self.blocked + other.blocked }
    }
}

/// The hubs of the first `n` business keys: for each that can be loaded, the
/// statement for its ghost records and then the statement that loads it.
pub open spec fn hub_batch_upto(schema: DVSchemaView, n: int) -> LoadBatchView
    decreases n,
{
    if n <= 0 {
        LoadBatchView::empty()
    } else {
        let earlier = hub_batch_upto(schema, n - 1);
        let key = schema.business_keys[n - 1];
        match hub_defect(key) {
            None => earlier.with_statement(
                hub_init_text(hub_load_of(schema.dw_schema, key)) + hub_load_text(
                    hub_load_of(schema.dw_schema, key),
                ),
            ),
            Some(defect) => earlier.with_blocked(
                BlockedTableView {
                    business_key: n - 1,
                    table_name: "hub_"@ + key.name,
                    defect,
                },
            ),
        }
    }
}

/// No earlier descriptor of the business key has the satellite of the
/// descriptor at `j`.
pub open spec fn opens_satellite(descriptors: Seq<DescriptorView>, j: int) -> bool {
    forall|e: int| 0 <= e < j ==> key_of(#[trigger] descriptors[e]) != key_of(descriptors[j])
}

/// The satellites that the first `m` descriptors of a business key open, in
/// that order: the load statement of each that can be loaded.
pub open spec fn key_satellites_upto(
    dw_schema: Seq<char>,
    key: BusinessKeyView,
    owner: int,
    m: int,
) -> LoadBatchView
    decreases m,
{
    if m <= 0 {
        LoadBatchView::empty()
    } else {
        let earlier = key_satellites_upto(dw_schema, key, owner, m - 1);
        let satellite = key_of(key.descriptors[m - 1]);
        if !opens_satellite(key.descriptors, m - 1) {
            earlier
        } else {
            match satellite_defect(key, satellite) {
                None => earlier.with_statement(
                    satellite_load_text(satellite_load_of(dw_schema, key, satellite)),
                ),
                Some(defect) => earlier.with_blocked(
                    BlockedTableView {
                        business_key: owner,
                        table_name: "sat_"@ + satellite_label(
                            satellite.orbit,
                            satellite.is_sensitive,
                        ),
                        defect,
                    },
                ),
            }
        }
    }
}

/// The satellites of the first `n` business keys, business key by business
/// key.
pub open spec fn satellite_batch_upto(schema: DVSchemaView, n: int) -> LoadBatchView
    decreases n,
{
    if n <= 0 {
        LoadBatchView::empty()
    } else {
        satellite_batch_upto(schema, n - 1).followed_by(
            key_satellites_upto(
                schema.dw_schema,
                schema.business_keys[n - 1],
                n - 1,
                schema.business_keys[n - 1].descriptors.len() as int,
            ),
        )
    }
}

/// The load of a schema: all hubs, then all satellites.
pub open spec fn load_batch(schema: DVSchemaView) -> LoadBatchView {
    hub_batch_upto(schema, schema.business_keys.len() as int).followed_by(
        satellite_batch_upto(schema, schema.business_keys.len() as int),
    )
}

/// The statements that load the hubs of a schema, in the order of its
/// business keys. A hub with a defect is left out and reported.
pub fn dv_data_loader_hub_dml(dv_schema: &DVSchema) -> (batch: LoadBatch)
    ensures
        batch@ == hub_batch_upto(dv_schema@, dv_schema@.business_keys.len() as int),
{
    let mut sql = String::new();
    let mut blocked: Vec<BlockedTable> = Vec::new();
    let mut i: usize = 0;
    while i < dv_schema.business_keys.len()
        invariant
            i <= dv_schema.business_keys.len(),
            sql@ == hub_batch_upto(dv_schema@, i as int).sql,
            blocked_view(blocked@) == hub_batch_upto(dv_schema@, i as int).blocked,
        decreases dv_schema.business_keys.len() - i,
    {
        let key = &dv_schema.business_keys[i];
        assert(dv_schema@.business_keys[i as int] == key@);
        match plan_hub_load(dv_schema.dw_schema.as_str(), key) {
            Ok(load) => {
                let mut statements = load.init_statement();
                let main = load.load_statement();
                statements.append(main.as_str());
                sql.append(statements.as_str());
            },
            Err(defect) => {
                let mut table_name = String::from_str("hub_");
                table_name.append(key.name.as_str());
                let ghost before = blocked_view(blocked@);
                let table = BlockedTable { business_key: i, table_name, defect };
                blocked.push(table);
                assert(blocked_view(blocked@) =~= before.push(table@));
            },
        }
        i += 1;
    }
    let batch = LoadBatch { sql, blocked };
    assert(batch@ =~= hub_batch_upto(dv_schema@, dv_schema@.business_keys.len() as int));
    batch
}

/// Whether no earlier descriptor has the satellite of the descriptor at `j`.
fn is_first_of_satellite(descriptors: &Vec<Descriptor>, j: usize) -> (first: bool)
    requires
        j < descriptors.len(),
    ensures
        first == opens_satellite(descriptors_view(descriptors@), j as int),
{
    let ghost all = descriptors_view(descriptors@);
    let mut e: usize = 0;
    while e < j
        invariant
            e <= j,
            j < descriptors.len(),
            all == descriptors_view(descriptors@),
            forall|d: int| 0 <= d < e ==> key_of(#[trigger] all[d]) != key_of(all[j as int]),
        decreases j - e,
    {
        if descriptors[e].is_sensitive == descriptors[j].is_sensitive && str_eq(
            descriptors[e].orbit.as_str(),
            descriptors[j].orbit.as_str(),
        ) {
            assert(key_of(all[e as int]) == key_of(all[j as int]));
            return false;
        }
        e += 1;
    }
    true
}

/// The statements that load the satellites of one business key, in the order
/// in which its descriptors open them.
pub fn key_satellites_dml(dw_schema: &str, key: &BusinessKey, owner: usize) -> (batch: LoadBatch)
    ensures
        batch@ == key_satellites_upto(
            dw_schema@,
            key@,
            owner as int,
            key@.descriptors.len() as int,
        ),
{
    let mut sql = String::new();
    let mut blocked: Vec<BlockedTable> = Vec::new();
    let mut j: usize = 0;
    while j < key.descriptors.len()
        invariant
            j <= key.descriptors.len(),
            sql@ == key_satellites_upto(dw_schema@, key@, owner as int, j as int).sql,
            blocked_view(blocked@) == key_satellites_upto(
                dw_schema@,
                key@,
                owner as int,
                j as int,
            ).blocked,
        decreases key.descriptors.len() - j,
    {
        let descriptor = &key.descriptors[j];
        assert(key@.descriptors[j as int] == descriptor@);
        if is_first_of_satellite(&key.descriptors, j) {
            match plan_satellite_load(
                dw_schema,
                key,
                descriptor.orbit.as_str(),
                descriptor.is_sensitive,
            ) {
                Ok(load) => {
                    let statement = load.load_statement();
                    sql.append(statement.as_str());
                },
                Err(defect) => {
                    let label = satellite_label_text(
                        descriptor.orbit.as_str(),
                        descriptor.is_sensitive,
                    );
                    let mut table_name = String::from_str("sat_");
                    table_name.append(label.as_str());
                    let ghost before = blocked_view(blocked@);
                    let table = BlockedTable { business_key: owner, table_name, defect };
                    blocked.push(table);
                    assert(blocked_view(blocked@) =~= before.push(table@));
                },
            }
        }
        j += 1;
    }
    let batch = LoadBatch { sql, blocked };
    assert(batch@ =~= key_satellites_upto(
        dw_schema@,
        key@,
        owner as int,
        key@.descriptors.len() as int,
    ));
    batch
}

/// The statements that load the satellites of a schema, business key by
/// business key. A satellite with a defect is left out and reported.
pub fn dv_data_loader_sat_dml(dv_schema: &DVSchema) -> (batch: LoadBatch)
    ensures
        batch@ == satellite_batch_upto(dv_schema@, dv_schema@.business_keys.len() as int),
{
    let mut sql = String::new();
    let mut blocked: Vec<BlockedTable> = Vec::new();
    let mut i: usize = 0;
    while i < dv_schema.business_keys.len()
        invariant
            i <= dv_schema.business_keys.len(),
            sql@ == satellite_batch_upto(dv_schema@, i as int).sql,
            blocked_view(blocked@) == satellite_batch_upto(dv_schema@, i as int).blocked,
        decreases dv_schema.business_keys.len() - i,
    {
        let key = &dv_schema.business_keys[i];
        assert(dv_schema@.business_keys[i as int] == key@);
        let mut of_key = key_satellites_dml(dv_schema.dw_schema.as_str(), key, i);
        let ghost before = blocked_view(blocked@);
        let ghost added = blocked_view(of_key.blocked@);
        sql.append(of_key.sql.as_str());
        blocked.append(&mut of_key.blocked);
        assert(blocked_view(blocked@) =~= before + added);
        i += 1;
    }
    let batch = LoadBatch { sql, blocked };
    assert(batch@ =~= satellite_batch_upto(dv_schema@, dv_schema@.business_keys.len() as int));
    batch
}

/// The load of a schema: the statements for all hubs, then those for all
/// satellites, and the tables that are left out because of a defect.
pub fn dv_data_loader(dv_schema: &DVSchema) -> (batch: LoadBatch)
    ensures
        batch@ == load_batch(dv_schema@),
{
    let hubs = dv_data_loader_hub_dml(dv_schema);
    let mut satellites = dv_data_loader_sat_dml(dv_schema);
    let ghost hub_blocked = blocked_view(hubs.blocked@);
    let ghost satellite_blocked = blocked_view(satellites.blocked@);
    let mut sql = hubs.sql;
    let mut blocked = hubs.blocked;
    sql.append(satellites.sql.as_str());
    blocked.append(&mut satellites.blocked);
    assert(blocked_view(blocked@) =~= hub_blocked + satellite_blocked);
    let batch = LoadBatch { sql, blocked };
    assert(batch@ =~= load_batch(dv_schema@));
    batch
}

} // verus!
