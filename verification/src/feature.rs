//! The table of optional capabilities that a device reports.

use vstd::prelude::*;

verus! {

/// Name of the capability to compute on 16-bit floats.
pub const GPU_FEATURE_FP16: &'static str = "fp16";

/// Name of the capability to compute on 64-bit floats.
pub const GPU_FEATURE_FP64: &'static str = "fp64";

/// The two capability names are different names.
pub proof fn lemma_feature_names_differ()
    ensures
        GPU_FEATURE_FP16@ != GPU_FEATURE_FP64@,
{
    reveal_strlit("fp16");
    reveal_strlit("fp64");
    assert(GPU_FEATURE_FP16@[2] == '1');
    assert(GPU_FEATURE_FP64@[2] == '6');
}

/// One line of the table.
#[derive(Clone, Debug, PartialEq, Eq)]
pub struct Feature {
    pub name: String,
    pub supported: bool,
    pub description: Option<String>,
}

/// What the table says of one capability.
pub struct FeatureRecord {
    pub supported: bool,
    pub description: Option<Seq<char>>,
}

/// A description as the characters it holds.
pub open spec fn description_view(description: Option<String>) -> Option<Seq<char>> {
    match description {
        Some(text) => Some(text@),
        None => None,
    }
}

impl Feature {
    /// What this line says of its capability.
    pub open spec fn record(self) -> FeatureRecord {
        FeatureRecord {
            supported: self.supported,
            description: description_view(self.description),
        }
    }
}

/// A table from capability names to whether the device has the capability,
/// with a description for readers. A name that is added again replaces what
/// the table said of it before.
#[derive(Clone, Debug)]
pub struct DeviceFeatures {
    entries: Vec<Feature>,
}

/// The table that a list of lines stands for: a later line wins over an
/// earlier one of the same name.
spec fn table(entries: Seq<Feature>) -> Map<Seq<char>, FeatureRecord>
    decreases entries.len(),
{
    if entries.len() == 0 {
        Map::empty()
    } else {
        table(entries.drop_last()).insert(entries.last().name@, entries.last().record())
    }
}

proof fn lemma_table_without(entries: Seq<Feature>, name: Seq<char>)
    requires
        forall|j: int| 0 <= j < entries.len() ==> entries[j].name@ != name,
    ensures
        !table(entries).contains_key(name),
    decreases entries.len(),
{
    if entries.len() > 0 {
        lemma_table_without(entries.drop_last(), name);
    }
}

proof fn lemma_table_last(entries: Seq<Feature>, i: int, name: Seq<char>)
    requires
        0 <= i < entries.len(),
        entries[i].name@ == name,
        forall|j: int| i < j < entries.len() ==> entries[j].name@ != name,
    ensures
        table(entries).contains_key(name),
        table(entries)[name] == entries[i].record(),
    decreases entries.len(),
{
    if i < entries.len() - 1 {
        lemma_table_last(entries.drop_last(), i, name);
    }
}

impl View for DeviceFeatures {
    type V = Map<Seq<char>, FeatureRecord>;

    closed spec fn view(&self) -> Map<Seq<char>, FeatureRecord> {
        table(self.entries@)
    }
}

impl DeviceFeatures {
    /// The empty table.
    pub fn new() -> (features: DeviceFeatures)
        ensures
            features@ == Map::<Seq<char>, FeatureRecord>::empty(),
    {
        DeviceFeatures { entries: Vec::new() }
    }

    /// Sets what the table says of `name`.
    pub fn add_feature(&mut self, name: &str, supported: bool, description: Option<String>)
        ensures
            final(self)@ == old(self)@.insert(
                name@,
                (FeatureRecord { supported, description: description_view(description) }),
            ),
    {
        let line = Feature { name: name.to_owned(), supported, description };
        self.entries.push(line);
        assert(self.entries@.drop_last() =~= old(self).entries@);
    }

    /// The line of `name`, if the table has one.
    pub fn get(&self, name: &str) -> (line: Option<&Feature>)
        ensures
            match line {
                Some(f) => f.name@ == name@ && self@.contains_key(name@) && self@[name@]
                    == f.record(),
                None => !self@.contains_key(name@),
            },
    {
        let key: String = name.to_owned();
        let mut i: usize = self.entries.len();
        while i > 0
            invariant
                i <= self.entries@.len(),
                key@ == name@,
                forall|j: int| i <= j < self.entries@.len() ==> self.entries@[j].name@ != name@,
            decreases i,
        {
            i = i - 1;
            if self.entries[i].name == key {
                proof {
                    lemma_table_last(self.entries@, i as int, name@);
                }
                return Some(&self.entries[i]);
            }
        }
        proof {
            lemma_table_without(self.entries@, name@);
        }
        None
    }

    /// Whether the table says that the device has the capability `name`.
    /// A capability that the table does not know is not supported.
    pub fn is_supported(&self, name: &str) -> (supported: bool)
        ensures
            supported == (self@.contains_key(name@) && self@[name@].supported),
    {
        match self.get(name) {
            Some(line) => line.supported,
            None => false,
        }
    }
}

} // verus!
