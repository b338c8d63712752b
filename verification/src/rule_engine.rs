//! The rule engine: an ordered list of matchers, each of which knows one
//! dialect of diagnostic document, tried until one yields a temperature.

use vstd::prelude::*;
use serde_json::Value;
use crate::json::{as_integer, document_of, documents_of, elements, is_text, member, Document};
use crate::lsblk::{BlockDevice, DeviceIdentity};

verus! {

/// One dialect-specific strategy for finding a temperature in a document.
#[derive(Debug, Clone, Copy, PartialEq, Eq, Structural)]
pub enum Rule {
    /// The NVMe health log and its `temperature` field.
    NvmeSmartHealthInformationLog,
    /// The unified `temperature` block and its `current` field.
    TemperatureNode,
    /// The ATA SMART attribute table and its airflow temperature entry.
    AtaSmartAttributesAirflowTemperatureCel,
}

/// Whether a table entry carries exactly the attribute name `name`.
pub open spec fn has_name(entry: Document, name: Seq<char>) -> bool {
    entry.member("name"@) == Some(Document::Text(name))
}

/// The position of the first entry at or after `from` that carries the
/// attribute name `name`.
pub open spec fn first_named(table: Seq<Document>, name: Seq<char>, from: int) -> Option<int>
    decreases table.len() - from,
{
    if from < 0 || from >= table.len() {
        None
    } else if has_name(table[from], name) {
        Some(from)
    } else {
        first_named(table, name, from + 1)
    }
}

/// What the NVMe health-log matcher finds.
pub open spec fn nvme_temperature(doc: Document) -> Option<i64> {
    doc.integer_at("nvme_smart_health_information_log"@, "temperature"@)
}

/// What the generic temperature-node matcher finds.
pub open spec fn node_temperature(doc: Document) -> Option<i64> {
    doc.integer_at("temperature"@, "current"@)
}

/// What the ATA attribute-table matcher finds: the raw value of the first
/// entry named `Airflow_Temperature_Cel`, and nothing when that entry has no
/// integer raw value, whatever follows it in the table.
pub open spec fn airflow_temperature(doc: Document) -> Option<i64> {
    match doc.member("ata_smart_attributes"@) {
        Some(attributes) => match attributes.member("table"@) {
            Some(Document::Array(table)) => match first_named(table, "Airflow_Temperature_Cel"@, 0) {
                Some(at) => table[at].integer_at("raw"@, "value"@),
                None => None,
            },
            _ => None,
        },
        None => None,
    }
}

impl Rule {
    /// What this rule finds in a document.
    pub open spec fn extract(self, doc: Document) -> Option<i64> {
        match self {
            Rule::NvmeSmartHealthInformationLog => nvme_temperature(doc),
            Rule::TemperatureNode => node_temperature(doc),
            Rule::AtaSmartAttributesAirflowTemperatureCel => airflow_temperature(doc),
        }
    }

    /// Applies the rule. Every missing path, wrong value type or malformed
    /// shape yields `None`.
    pub fn try_extract(&self, block_device: &BlockDevice, json: &Value) -> (temperature: Option<i64>)
        ensures
            temperature == self.extract(document_of(*json)),
    {
        match self {
            Rule::NvmeSmartHealthInformationLog => nvme_smart_health_information_log(block_device, json),
            Rule::TemperatureNode => temperature_node(block_device, json),
            Rule::AtaSmartAttributesAirflowTemperatureCel => {
                ata_smart_attributes_airflow_temperature_cel(block_device, json)
            },
        }
    }
}

/// The registered rules, most specific first.
pub open spec fn rules() -> Seq<Rule> {
    seq![
        Rule::NvmeSmartHealthInformationLog,
        Rule::TemperatureNode,
        Rule::AtaSmartAttributesAirflowTemperatureCel,
    ]
}

/// The result of the first rule at or after `from` that finds a temperature.
pub open spec fn first_match(rules: Seq<Rule>, doc: Document, from: int) -> Option<i64>
    decreases rules.len() - from,
{
    if from < 0 || from >= rules.len() {
        None
    } else {
        match rules[from].extract(doc) {
            Some(temperature) => Some(temperature),
            None => first_match(rules, doc, from + 1),
        }
    }
}

/// The temperature that the engine extracts from a document, `None` when the
/// device is not supported.
pub open spec fn extraction(doc: Document) -> Option<i64> {
    first_match(rules(), doc, 0)
}

/// What the engine reports for a document that is ascribed to `device`. The
/// device serves for messages alone and has no part in the result.
pub open spec fn engine_result(device: DeviceIdentity, doc: Document) -> Option<i64> {
    extraction(doc)
}

/// A recorded document and the temperature expected of it hold as a pair
/// for every device: what the engine reported for the document under one
/// device, it reports under any other.
pub proof fn lemma_recorded_result_holds_for_any_device(
    recorded: DeviceIdentity,
    other: DeviceIdentity,
    doc: Document,
    expected: i64,
)
    requires
        engine_result(recorded, doc) == Some(expected),
    ensures
        engine_result(other, doc) == Some(expected),
{
}

/// The attribute scan stops at the first entry that carries the name: the
/// position it reports holds the name and no earlier one does, and it reports
/// nothing only when no entry from `from` onwards holds the name.
pub proof fn lemma_first_named_is_first(table: Seq<Document>, name: Seq<char>, from: int)
    requires
        0 <= from,
    ensures
        match first_named(table, name, from) {
            Some(at) => {
                &&& from <= at < table.len()
                &&& has_name(table[at], name)
                &&& forall|earlier: int| from <= earlier < at ==> !has_name(#[trigger] table[earlier], name)
            },
            None => forall|any: int| from <= any < table.len() ==> !has_name(#[trigger] table[any], name),
        },
    decreases table.len() - from,
{
    if from < table.len() && !has_name(table[from], name) {
        lemma_first_named_is_first(table, name, from + 1);
    }
}

/// First match wins, for any list of rules: the engine's result is that of
/// the earliest rule that finds a temperature, and there is no result only
/// when no rule finds one.
pub proof fn lemma_first_match_is_first(rules: Seq<Rule>, doc: Document, from: int)
    requires
        0 <= from,
    ensures
        match first_match(rules, doc, from) {
            Some(temperature) => exists|at: int|
                {
                    &&& from <= at < rules.len()
                    &&& #[trigger] rules[at].extract(doc) == Some(temperature)
                    &&& forall|earlier: int|
                        from <= earlier < at ==> (#[trigger] rules[earlier]).extract(doc) is None
                },
            None => forall|any: int| from <= any < rules.len() ==> (#[trigger] rules[any]).extract(doc) is None,
        },
    decreases rules.len() - from,
{
    if from < rules.len() {
        match rules[from].extract(doc) {
            Some(temperature) => {
                assert(rules[from].extract(doc) == Some(temperature));
            },
            None => {
                lemma_first_match_is_first(rules, doc, from + 1);
                match first_match(rules, doc, from + 1) {
                    Some(temperature) => {
                        let at = choose|at: int|
                            {
                                &&& from + 1 <= at < rules.len()
                                &&& #[trigger] rules[at].extract(doc) == Some(temperature)
                                &&& forall|earlier: int|
                                    from + 1 <= earlier < at ==> (#[trigger] rules[earlier]).extract(doc) is None
                            };
                        assert(rules[at].extract(doc) == Some(temperature));
                    },
                    None => {},
                }
            },
        }
    }
}

/// The engine's result in closed form: the NVMe health log before the
/// temperature node, the temperature node before the ATA attribute table.
pub proof fn lemma_priority_order(doc: Document)
    ensures
        extraction(doc) == match nvme_temperature(doc) {
            Some(temperature) => Some(temperature),
            None => match node_temperature(doc) {
                Some(temperature) => Some(temperature),
                None => airflow_temperature(doc),
            },
        },
{
    reveal_with_fuel(first_match, 4);
}

/// A document that both the NVMe health-log matcher and the temperature-node
/// matcher understand yields the health log's value.
pub proof fn lemma_first_match_wins(doc: Document)
    requires
        nvme_temperature(doc) is Some,
        node_temperature(doc) is Some,
    ensures
        extraction(doc) == nvme_temperature(doc),
{
    lemma_priority_order(doc);
}

/// A device is unsupported exactly when none of the three matchers finds a
/// temperature in its document.
pub proof fn lemma_unsupported_iff_no_rule_matches(doc: Document)
    ensures
        extraction(doc) is None <==> {
            &&& nvme_temperature(doc) is None
            &&& node_temperature(doc) is None
            &&& airflow_temperature(doc) is None
        },
{
    lemma_priority_order(doc);
}

/// A document whose root is not an object, or is an object without any of
/// the three top-level fields that the matchers look for, is unsupported.
pub proof fn lemma_foreign_shapes_are_unsupported(doc: Document)
    requires
        !(doc is Object) || {
            &&& doc.member("nvme_smart_health_information_log"@) is None
            &&& doc.member("temperature"@) is None
            &&& doc.member("ata_smart_attributes"@) is None
        },
    ensures
        extraction(doc) is None,
{
    lemma_priority_order(doc);
}

/// The integer stored under `outer` and then `inner`.
fn integer_at(json: &Value, outer: &str, inner: &str) -> (number: Option<i64>)
    ensures
        number == document_of(*json).integer_at(outer@, inner@),
{
    match member(json, outer) {
        Some(node) => match member(node, inner) {
            Some(leaf) => as_integer(leaf),
            None => None,
        },
        None => None,
    }
}

/// Whether a table entry carries exactly the attribute name `name`.
fn entry_has_name(entry: &Value, name: &str) -> (named: bool)
    ensures
        named == has_name(document_of(*entry), name@),
{
    match member(entry, "name") {
        Some(label) => is_text(label, name),
        None => false,
    }
}

/// The NVMe health-log matcher.
pub fn nvme_smart_health_information_log(_block_device: &BlockDevice, json: &Value) -> (temperature: Option<i64>)
    ensures
        temperature == nvme_temperature(document_of(*json)),
{
    integer_at(json, "nvme_smart_health_information_log", "temperature")
}

/// The generic temperature-node matcher.
pub fn temperature_node(_block_device: &BlockDevice, json: &Value) -> (temperature: Option<i64>)
    ensures
        temperature == node_temperature(document_of(*json)),
{
    integer_at(json, "temperature", "current")
}

/// The ATA SMART attribute-table matcher. The table is scanned once, in the
/// order in which the diagnostic tool returned it.
pub fn ata_smart_attributes_airflow_temperature_cel(_block_device: &BlockDevice, json: &Value) -> (temperature: Option<i64>)
    ensures
        temperature == airflow_temperature(document_of(*json)),
{
    let attributes = match member(json, "ata_smart_attributes") {
        Some(attributes) => attributes,
        None => { return None; },
    };
    let table = match member(attributes, "table") {
        Some(table) => table,
        None => { return None; },
    };
    let entries = match elements(table) {
        Some(entries) => entries,
        None => { return None; },
    };
    let ghost rows = documents_of(entries@);
    let mut at: usize = 0;
    while at < entries.len()
        invariant
            at <= entries.len(),
            rows == documents_of(entries@),
            document_of(*json).member("ata_smart_attributes"@) == Some(document_of(*attributes)),
            document_of(*attributes).member("table"@) == Some(Document::Array(rows)),
            first_named(rows, "Airflow_Temperature_Cel"@, 0) == first_named(
                rows,
                "Airflow_Temperature_Cel"@,
                at as int,
            ),
        decreases entries.len() - at,
    {
        if entry_has_name(&entries[at], "Airflow_Temperature_Cel") {
            return integer_at(&entries[at], "raw", "value");
        }
        at += 1;
    }
    None
}

/// The registered rules as a list to walk.
pub fn registered_rules() -> (list: Vec<Rule>)
    ensures
        list@ == rules(),
{
    let mut list: Vec<Rule> = Vec::new();
    list.push(Rule::NvmeSmartHealthInformationLog);
    list.push(Rule::TemperatureNode);
    list.push(Rule::AtaSmartAttributesAirflowTemperatureCel);
    list
}

/// Runs the registered rules in their fixed order and returns the first
/// temperature found. Rules after the first success are not consulted. `None`
/// means that the device is not supported; that is an outcome, not a failure.
pub fn process_rules(block_device: &BlockDevice, json: &Value) -> (temperature: Option<i64>)
    ensures
        temperature == engine_result(block_device@, document_of(*json)),
{
    let list = registered_rules();
    let mut at: usize = 0;
    while at < list.len()
        invariant
            at <= list.len(),
            list@ == rules(),
            extraction(document_of(*json)) == first_match(rules(), document_of(*json), at as int),
        decreases list.len() - at,
    {
        match list[at].try_extract(block_device, json) {
            Some(temperature) => { return Some(temperature); },
            None => {},
        }
        at += 1;
    }
    None
}

} // verus!
