//! The index: entries by platform, and the view of one platform.

use crate::error::ParseError;
use crate::json::{json_document, Json, JsonTree};
use crate::keyed::{
    distinct_keys, find, lemma_position, lemma_position_same_keys, lookup, position, total,
    Entries,
};
use crate::raw::{
    decode_output, keys_are_distinct, lemma_decoding_keeps_count, member_count, Category,
    DetailView, FlakeAnatomyDetail, FlakeShowOutput, FlakeShowOutputView, HighLevelFieldAnatomy,
};
use crate::system::{current_nix_system, lossy_text};
use vstd::prelude::*;

verus! {

/// One artifact: what the tool says of it, and the name it is invoked by.
#[derive(Debug, PartialEq, Eq)]
pub struct Derivation {
    pub name: String,
    pub kind: String,
    pub description: Option<String>,
    pub invocation: String,
}

/// An artifact as mathematical values.
pub struct DerivationView {
    pub name: Seq<char>,
    pub kind: Seq<char>,
    pub description: Option<Seq<char>>,
    pub invocation: Seq<char>,
}

impl View for Derivation {
    type V = DerivationView;

    open spec fn view(&self) -> DerivationView {
        DerivationView {
            name: self.name@,
            kind: self.kind@,
            description: match self.description {
                Some(text) => Some(text@),
                None => None,
            },
            invocation: self.invocation@,
        }
    }
}

impl DeepView for Derivation {
    type V = DerivationView;

    open spec fn deep_view(&self) -> DerivationView {
        self.view()
    }
}

/// A copy of a text that may be missing.
fn copy_text(text: &Option<String>) -> (copy: Option<String>)
    ensures
        copy.deep_view() == text.deep_view(),
{
    match text {
        Some(text) => Some(text.clone()),
        None => None,
    }
}

impl Clone for Derivation {
    fn clone(&self) -> (copy: Self)
        ensures
            copy@ == self@,
    {
        Derivation {
            name: self.name.clone(),
            kind: self.kind.clone(),
            description: copy_text(&self.description),
            invocation: self.invocation.clone(),
        }
    }
}

/// A copy of a sequence of artifacts.
fn copy_derivations(entries: &Vec<Derivation>) -> (copy: Vec<Derivation>)
    ensures
        copy.deep_view() == entries.deep_view(),
{
    let mut copy: Vec<Derivation> = Vec::new();
    let mut i: usize = 0;
    while i < entries.len()
        invariant
            i <= entries.len(),
            copy.len() == i,
            forall|j: int| 0 <= j < i ==> copy[j]@ == entries[j]@,
        decreases entries.len() - i,
    {
        copy.push(entries[i].clone());
        i = i + 1;
    }
    assert(copy.deep_view() =~= entries.deep_view());
    copy
}

/// The artifact that a detail record becomes once the name it was stored
/// under is made one of its fields.
pub open spec fn promote(invocation: Seq<char>, detail: DetailView) -> DerivationView {
    DerivationView {
        name: detail.name,
        kind: detail.kind,
        description: detail.description,
        invocation,
    }
}

/// The artifacts of one platform, in the order of its detail records.
pub open spec fn promote_all(names: Entries<DetailView>) -> Seq<DerivationView> {
    Seq::new(names.len(), |i: int| promote(names[i].0, names[i].1))
}

/// A category with each platform's detail records promoted to artifacts. The
/// platforms stay as they are and in their order.
pub open spec fn flatten(category: Category) -> Entries<Seq<DerivationView>> {
    Seq::new(category.len(), |i: int| (category[i].0, promote_all(category[i].1)))
}

/// The view of one platform as mathematical values.
pub struct IndividualView {
    pub dev_shells: Seq<DerivationView>,
    pub packages: Seq<DerivationView>,
}

/// The index as mathematical values: in each category the artifacts of each
/// platform, under the platform's name.
pub struct FlakeInfoView {
    pub dev_shells: Entries<Seq<DerivationView>>,
    pub packages: Entries<Seq<DerivationView>>,
}

/// The artifacts of a platform in a category: none where the platform is not
/// there.
pub open spec fn entries_for(category: Entries<Seq<DerivationView>>, system: Seq<char>) -> Seq<
    DerivationView,
> {
    match lookup(category, system) {
        Some(entries) => entries,
        None => Seq::empty(),
    }
}

impl FlakeInfoView {
    /// What the index holds for one platform.
    pub open spec fn for_system(self, system: Seq<char>) -> IndividualView {
        IndividualView {
            dev_shells: entries_for(self.dev_shells, system),
            packages: entries_for(self.packages, system),
        }
    }
}

/// The index that the tool's output is flattened into.
pub open spec fn normalize(raw: FlakeShowOutputView) -> FlakeInfoView {
    FlakeInfoView { dev_shells: flatten(raw.dev_shells), packages: flatten(raw.packages) }
}

/// The index that a JSON document stands for, or `None` where the document is
/// not of the shape the tool prints.
pub open spec fn index_of(doc: JsonTree) -> Option<FlakeInfoView> {
    match decode_output(doc) {
        Some(raw) => Some(normalize(raw)),
        None => None,
    }
}

/// What reading `bytes` as the tool's output gives: the index, or the reason
/// why there is none.
pub open spec fn parsed(bytes: Seq<u8>) -> Result<FlakeInfoView, ParseError> {
    match json_document(bytes) {
        None => Err(ParseError::Syntax),
        Some(doc) => match index_of(doc) {
            Some(index) => Ok(index),
            None => Err(ParseError::Shape),
        },
    }
}

/// The artifacts of one platform, by category.
#[derive(Debug, PartialEq, Eq)]
pub struct IndividualFlakeInfos {
    pub dev_shells: Vec<Derivation>,
    pub packages: Vec<Derivation>,
}

impl View for IndividualFlakeInfos {
    type V = IndividualView;

    open spec fn view(&self) -> IndividualView {
        IndividualView {
            dev_shells: self.dev_shells.deep_view(),
            packages: self.packages.deep_view(),
        }
    }
}

impl Clone for IndividualFlakeInfos {
    fn clone(&self) -> (copy: Self)
        ensures
            copy@ == self@,
    {
        IndividualFlakeInfos {
            dev_shells: copy_derivations(&self.dev_shells),
            packages: copy_derivations(&self.packages),
        }
    }
}

/// Promotes the detail records of one platform.
fn promote_names(anatomy: &HighLevelFieldAnatomy) -> (entries: Vec<Derivation>)
    ensures
        entries.deep_view() == promote_all(anatomy@),
{
    let names = anatomy.names();
    let mut entries: Vec<Derivation> = Vec::new();
    let mut i: usize = 0;
    while i < names.len()
        invariant
            i <= names.len(),
            entries.len() == i,
            names.deep_view() == anatomy@,
            forall|j: int| 0 <= j < i ==> entries[j]@ == promote_all(anatomy@)[j],
        decreases names.len() - i,
    {
        let detail = &names[i].1;
        entries.push(
            Derivation {
                name: detail.name.clone(),
                kind: detail.kind.clone(),
                description: copy_text(&detail.description),
                invocation: names[i].0.clone(),
            },
        );
        i = i + 1;
    }
    assert(entries.deep_view() =~= promote_all(anatomy@));
    entries
}

/// Flattens one category.
fn flatten_category(systems: &Vec<(String, HighLevelFieldAnatomy)>) -> (flat: Vec<
    (String, Vec<Derivation>),
>)
    ensures
        flat.deep_view() == flatten(systems.deep_view()),
{
    let mut flat: Vec<(String, Vec<Derivation>)> = Vec::new();
    let mut i: usize = 0;
    while i < systems.len()
        invariant
            i <= systems.len(),
            flat.len() == i,
            forall|j: int| 0 <= j < i ==> flat[j].deep_view() == flatten(systems.deep_view())[j],
        decreases systems.len() - i,
    {
        let entries = promote_names(&systems[i].1);
        flat.push((systems[i].0.clone(), entries));
        i = i + 1;
    }
    assert(flat.deep_view() =~= flatten(systems.deep_view()));
    flat
}

/// The index: in each category the artifacts of each platform. Within a
/// category no platform occurs twice.
#[derive(Debug)]
pub struct FlakeInfo {
    dev_shells: Vec<(String, Vec<Derivation>)>,
    packages: Vec<(String, Vec<Derivation>)>,
}

impl View for FlakeInfo {
    type V = FlakeInfoView;

    closed spec fn view(&self) -> FlakeInfoView {
        FlakeInfoView {
            dev_shells: self.dev_shells.deep_view(),
            packages: self.packages.deep_view(),
        }
    }
}

/// Flattening keeps the platforms, so it keeps them distinct.
pub proof fn lemma_flatten_distinct(category: Category)
    requires
        distinct_keys(category),
    ensures
        distinct_keys(flatten(category)),
{
}

/// Flattening is a promotion record by record: platform by platform, the
/// artifacts are the detail records in their order, each with the name it was
/// stored under. None is left out and none is made up.
pub proof fn lemma_flatten_is_record_by_record(category: Category)
    ensures
        flatten(category).len() == category.len(),
        forall|i: int|
            0 <= i < category.len() ==> (#[trigger] flatten(category)[i]).0 == category[i].0
                && flatten(category)[i].1.len() == category[i].1.len(),
        forall|i: int, j: int|
            0 <= i < category.len() && 0 <= j < category[i].1.len() ==> #[trigger] flatten(
                category,
            )[i].1[j] == promote(category[i].1[j].0, category[i].1[j].1),
{
}

/// What is held for a platform is part of the index: it is nothing, where
/// the category does not have the platform, and else all that stands under
/// the platform at one place of the category.
pub proof fn lemma_view_is_part_of_the_index(
    category: Entries<Seq<DerivationView>>,
    system: Seq<char>,
)
    ensures
        match position(category, system) {
            Some(i) => 0 <= i < category.len() && category[i].0 == system && entries_for(
                category,
                system,
            ) == category[i].1,
            None => entries_for(category, system) == Seq::<DerivationView>::empty() && forall|
                i: int,
            |
                0 <= i < category.len() ==> (#[trigger] category[i]).0 != system,
        },
{
    lemma_position(category, system);
}

/// Flattening loses nothing and adds nothing: a category holds as many
/// artifacts after it as it held detail records before.
pub proof fn lemma_flatten_keeps_count(category: Category)
    ensures
        total(flatten(category)) == total(category),
    decreases category.len(),
{
    if category.len() > 0 {
        assert(flatten(category).drop_last() =~= flatten(category.drop_last()));
        lemma_flatten_keeps_count(category.drop_last());
    }
}

/// In both categories the index holds as many artifacts, all platforms taken
/// together, as the tool's output holds invocation names.
pub proof fn lemma_normalize_keeps_count(raw: FlakeShowOutputView)
    ensures
        total(normalize(raw).dev_shells) == total(raw.dev_shells),
        total(normalize(raw).packages) == total(raw.packages),
{
    lemma_flatten_keeps_count(raw.dev_shells);
    lemma_flatten_keeps_count(raw.packages);
}

/// Reading a document is lossless in the number of entries: in each category
/// that the document has, with no key twice, the index holds as many
/// artifacts, all platforms taken together, as the category's objects have
/// invocation names.
pub proof fn lemma_index_keeps_count(top: Entries<JsonTree>, systems: Entries<JsonTree>)
    requires
        index_of(JsonTree::Object(top)) is Some,
        keys_are_distinct(systems),
    ensures
        lookup(top, "devShells"@) == Some(JsonTree::Object(systems)) ==> total(
            index_of(JsonTree::Object(top))->Some_0.dev_shells,
        ) == member_count(systems),
        lookup(top, "packages"@) == Some(JsonTree::Object(systems)) ==> total(
            index_of(JsonTree::Object(top))->Some_0.packages,
        ) == member_count(systems),
{
    let raw = decode_output(JsonTree::Object(top))->Some_0;
    lemma_normalize_keeps_count(raw);
    if lookup(top, "devShells"@) == Some(JsonTree::Object(systems)) {
        lemma_decoding_keeps_count(systems);
    }
    if lookup(top, "packages"@) == Some(JsonTree::Object(systems)) {
        lemma_decoding_keeps_count(systems);
    }
}

/// A platform has in the flattened category the artifacts that its detail
/// records promote to, and none where the category does not have the
/// platform.
pub proof fn lemma_flatten_lookup(category: Category, system: Seq<char>)
    ensures
        entries_for(flatten(category), system) == match lookup(category, system) {
            Some(names) => promote_all(names),
            None => Seq::empty(),
        },
{
    lemma_position_same_keys(flatten(category), category, system);
    lemma_position(category, system);
}

/// A detail record stored under a platform and an invocation name comes out
/// as exactly one artifact of that platform: the record with the invocation
/// name as a field, at one position and at no other.
pub proof fn lemma_record_becomes_one_artifact(
    category: Category,
    system: Seq<char>,
    invocation: Seq<char>,
)
    requires
        lookup(category, system) is Some,
        distinct_keys(lookup(category, system)->Some_0),
        lookup(lookup(category, system)->Some_0, invocation) is Some,
    ensures
        ({
            let names = lookup(category, system)->Some_0;
            let artifact = promote(invocation, lookup(names, invocation)->Some_0);
            let entries = entries_for(flatten(category), system);
            exists|k: int|
                0 <= k < entries.len() && #[trigger] entries[k] == artifact && forall|j: int|
                    0 <= j < entries.len() && #[trigger] entries[j].invocation == invocation ==> j
                        == k
        }),
{
    let names = lookup(category, system)->Some_0;
    let artifact = promote(invocation, lookup(names, invocation)->Some_0);
    let entries = entries_for(flatten(category), system);
    lemma_flatten_lookup(category, system);
    lemma_position(names, invocation);
    let k = position(names, invocation)->Some_0;
    assert(entries[k] == artifact);
    assert forall|j: int|
        0 <= j < entries.len() && #[trigger] entries[j].invocation == invocation implies j
        == k by {
        assert(names[j].0 == invocation);
    }
}

/// A platform that the tool's output has in neither category has no
/// artifacts in the index.
pub proof fn lemma_absent_platform_is_empty(raw: FlakeShowOutputView, system: Seq<char>)
    requires
        lookup(raw.dev_shells, system) is None,
        lookup(raw.packages, system) is None,
    ensures
        normalize(raw).for_system(system) == (IndividualView {
            dev_shells: Seq::empty(),
            packages: Seq::empty(),
        }),
{
    lemma_flatten_lookup(raw.dev_shells, system);
    lemma_flatten_lookup(raw.packages, system);
}

/// The artifacts of one platform in a category, copied out.
fn entries_of(category: &Vec<(String, Vec<Derivation>)>, system: &String) -> (entries: Vec<
    Derivation,
>)
    ensures
        entries.deep_view() == entries_for(category.deep_view(), system@),
{
    proof {
        lemma_position(category.deep_view(), system@);
    }
    match find(category, system) {
        Some(i) => copy_derivations(&category[i].1),
        None => {
            let entries: Vec<Derivation> = Vec::new();
            assert(entries.deep_view() =~= Seq::<DerivationView>::empty());
            entries
        },
    }
}

/// A copy of one category of an index.
fn copy_category(category: &Vec<(String, Vec<Derivation>)>) -> (copy: Vec<
    (String, Vec<Derivation>),
>)
    ensures
        copy.deep_view() == category.deep_view(),
{
    let mut copy: Vec<(String, Vec<Derivation>)> = Vec::new();
    let mut i: usize = 0;
    while i < category.len()
        invariant
            i <= category.len(),
            copy.len() == i,
            forall|j: int| 0 <= j < i ==> copy[j].deep_view() == category[j].deep_view(),
        decreases category.len() - i,
    {
        copy.push((category[i].0.clone(), copy_derivations(&category[i].1)));
        i = i + 1;
    }
    assert(copy.deep_view() =~= category.deep_view());
    copy
}

impl Clone for FlakeInfo {
    fn clone(&self) -> (copy: Self)
        ensures
            copy@ == self@,
    {
        proof {
            use_type_invariant(self);
        }
        FlakeInfo {
            dev_shells: copy_category(&self.dev_shells),
            packages: copy_category(&self.packages),
        }
    }
}

impl FlakeInfo {
    #[verifier::type_invariant]
    spec fn systems_are_distinct(self) -> bool {
        distinct_keys(self.dev_shells.deep_view()) && distinct_keys(self.packages.deep_view())
    }

    /// The development shells: each platform with its artifacts. No platform
    /// occurs twice.
    pub fn dev_shells(&self) -> (systems: &Vec<(String, Vec<Derivation>)>)
        ensures
            systems.deep_view() == self@.dev_shells,
            distinct_keys(self@.dev_shells),
    {
        proof {
            use_type_invariant(self);
        }
        &self.dev_shells
    }

    /// The packages: each platform with its artifacts. No platform occurs
    /// twice.
    pub fn packages(&self) -> (systems: &Vec<(String, Vec<Derivation>)>)
        ensures
            systems.deep_view() == self@.packages,
            distinct_keys(self@.packages),
    {
        proof {
            use_type_invariant(self);
        }
        &self.packages
    }

    /// What the index holds for one platform: in each category the platform's
    /// artifacts, and none where the platform is not there.
    pub fn for_system(&self, sys: &str) -> (infos: IndividualFlakeInfos)
        ensures
            infos@ == self@.for_system(sys@),
    {
        let system = sys.to_owned();
        IndividualFlakeInfos {
            dev_shells: entries_of(&self.dev_shells, &system),
            packages: entries_of(&self.packages, &system),
        }
    }

    /// What the index holds for the platform the tool runs on, named by what
    /// [`crate::system::current_nix_system_query`] printed on standard output.
    pub fn for_current_system(&self, query_stdout: &[u8]) -> (infos: IndividualFlakeInfos)
        ensures
            infos@ == self@.for_system(lossy_text(query_stdout@)),
    {
        let system = current_nix_system(query_stdout);
        self.for_system(system.as_str())
    }

    /// Builds the index from a JSON document.
    pub fn from_json(doc: &Json) -> (read: Result<FlakeInfo, ParseError>)
        ensures
            match index_of(doc@) {
                Some(index) => read matches Ok(info) && info@ == index,
                None => read == Err::<FlakeInfo, ParseError>(ParseError::Shape),
            },
    {
        match FlakeShowOutput::from_json(doc) {
            Ok(raw) => Ok(FlakeInfo::from(raw)),
            Err(e) => Err(e),
        }
    }

    /// Builds the index from what the tool printed on standard output. Fails
    /// with [`ParseError::Syntax`] where the bytes are no JSON document, and
    /// with [`ParseError::Shape`] where the document is of another shape.
    pub fn from_stdout(v: &[u8]) -> (read: Result<FlakeInfo, ParseError>)
        ensures
            match parsed(v@) {
                Ok(index) => read matches Ok(info) && info@ == index,
                Err(e) => read == Err::<FlakeInfo, ParseError>(e),
            },
    {
        match Json::parse(v) {
            Ok(doc) => FlakeInfo::from_json(&doc),
            Err(e) => Err(e),
        }
    }
}

impl vstd::std_specs::convert::FromSpecImpl<FlakeShowOutput> for FlakeInfo {
    open spec fn obeys_from_spec() -> bool {
        false
    }

    open spec fn from_spec(value: FlakeShowOutput) -> FlakeInfo {
        arbitrary()
    }
}

impl From<FlakeShowOutput> for FlakeInfo {
    /// Flattens the tool's output: every detail record becomes one artifact
    /// under its platform, with the name it was stored under as a field.
    fn from(value: FlakeShowOutput) -> (info: FlakeInfo)
        ensures
            info@ == normalize(value@),
    {
        let dev_shells = flatten_category(value.dev_shells());
        let packages = flatten_category(value.packages());
        proof {
            lemma_flatten_distinct(value@.dev_shells);
            lemma_flatten_distinct(value@.packages);
        }
        FlakeInfo { dev_shells, packages }
    }
}

} // verus!
