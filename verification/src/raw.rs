//! The tool's output in the shape it is printed: two categories, each a
//! mapping from platform to a mapping from invocation name to a detail record.

use crate::error::ParseError;
use crate::json::{Json, JsonTree};
use crate::keyed::{
    collected, distinct_keys, find, lemma_collected_distinct, lemma_collected_of_distinct,
    lemma_position, lemma_upsert_distinct, lookup, put, total, upsert, Entries,
};
use vstd::prelude::*;

verus! {

/// What the tool says of one artifact.
#[derive(Debug, Clone, PartialEq, Eq)]
pub struct FlakeAnatomyDetail {
    pub name: String,
    pub kind: String,
    pub description: Option<String>,
}

/// A detail record as mathematical values.
pub struct DetailView {
    pub name: Seq<char>,
    pub kind: Seq<char>,
    pub description: Option<Seq<char>>,
}

impl View for FlakeAnatomyDetail {
    type V = DetailView;

    open spec fn view(&self) -> DetailView {
        DetailView {
            name: self.name@,
            kind: self.kind@,
            description: match self.description {
                Some(text) => Some(text@),
                None => None,
            },
        }
    }
}

impl DeepView for FlakeAnatomyDetail {
    type V = DetailView;

    open spec fn deep_view(&self) -> DetailView {
        self.view()
    }
}

/// The text under `key`, where the member is there and is a string.
pub open spec fn required_text(members: Entries<JsonTree>, key: Seq<char>) -> Option<Seq<char>> {
    match lookup(members, key) {
        Some(JsonTree::Text(text)) => Some(text),
        _ => None,
    }
}

/// The text under `key`, where there may be none: a missing member and
/// `null` both stand for no text. `None` where the member is anything else.
pub open spec fn optional_text(members: Entries<JsonTree>, key: Seq<char>) -> Option<
    Option<Seq<char>>,
> {
    match lookup(members, key) {
        None => Some(None),
        Some(JsonTree::Null) => Some(None),
        Some(JsonTree::Text(text)) => Some(Some(text)),
        _ => None,
    }
}

/// The detail record that a JSON value stands for: an object with the strings
/// `name` and `type` and, if it is there, the string `description`. Other
/// members are ignored.
pub open spec fn decode_detail(value: JsonTree) -> Option<DetailView> {
    match value {
        JsonTree::Object(members) => match (
            required_text(members, "name"@),
            required_text(members, "type"@),
            optional_text(members, "description"@),
        ) {
            (Some(name), Some(kind), Some(description)) => Some(
                DetailView { name, kind, description },
            ),
            _ => None,
        },
        _ => None,
    }
}

/// The member under `key`, if there is one.
fn member<'a>(members: &'a Vec<(String, Json)>, key: &str) -> (found: Option<&'a Json>)
    ensures
        found.deep_view() == lookup(members.deep_view(), key@),
{
    proof {
        lemma_position(members.deep_view(), key@);
    }
    match find(members, &key.to_owned()) {
        Some(i) => Some(&members[i].1),
        None => None,
    }
}

/// Reads a member that has to be a string.
fn read_required_text(members: &Vec<(String, Json)>, key: &str) -> (found: Option<String>)
    ensures
        found.deep_view() == required_text(members.deep_view(), key@),
{
    match member(members, key) {
        Some(value) => match value.text() {
            Some(text) => Some(text.clone()),
            None => None,
        },
        None => None,
    }
}

/// Reads a member that may be missing or `null`, and is a string otherwise.
fn read_optional_text(members: &Vec<(String, Json)>, key: &str) -> (found: Option<Option<String>>)
    ensures
        found.deep_view() == optional_text(members.deep_view(), key@),
{
    match member(members, key) {
        Some(Json::Null) => Some(None),
        Some(Json::String(text)) => Some(Some(text.clone())),
        Some(_) => None,
        None => Some(None),
    }
}

impl FlakeAnatomyDetail {
    /// Reads a detail record from a JSON value.
    pub fn from_json(value: &Json) -> (read: Result<FlakeAnatomyDetail, ParseError>)
        ensures
            match decode_detail(value@) {
                Some(detail) => read matches Ok(record) && record@ == detail,
                None => read == Err::<FlakeAnatomyDetail, ParseError>(ParseError::Shape),
            },
    {
        let members = match value.members() {
            Some(members) => members,
            None => {
                return Err(ParseError::Shape);
            },
        };
        let name = read_required_text(members, "name");
        let kind = read_required_text(members, "type");
        let description = read_optional_text(members, "description");
        match (name, kind, description) {
            (Some(name), Some(kind), Some(description)) => Ok(
                FlakeAnatomyDetail { name, kind, description },
            ),
            _ => Err(ParseError::Shape),
        }
    }
}

/// The artifacts of one platform in one category, each under the name it is
/// invoked by. No name occurs twice.
#[derive(Debug)]
pub struct HighLevelFieldAnatomy {
    names: Vec<(String, FlakeAnatomyDetail)>,
}

impl View for HighLevelFieldAnatomy {
    type V = Entries<DetailView>;

    closed spec fn view(&self) -> Entries<DetailView> {
        self.names.deep_view()
    }
}

impl DeepView for HighLevelFieldAnatomy {
    type V = Entries<DetailView>;

    open spec fn deep_view(&self) -> Entries<DetailView> {
        self.view()
    }
}

/// Each member with the detail record its value stands for, in the members'
/// order. It is meant for members that all stand for one.
pub open spec fn each_detail(members: Entries<JsonTree>) -> Entries<DetailView> {
    Seq::new(members.len(), |i: int| (members[i].0, decode_detail(members[i].1)->Some_0))
}

/// The detail records that the members of an object stand for, or `None`
/// where one of them is no detail record. A name that occurs again replaces
/// the record that was under it.
pub open spec fn decode_names(members: Entries<JsonTree>) -> Option<Entries<DetailView>> {
    if forall|i: int| 0 <= i < members.len() ==> decode_detail(#[trigger] members[i].1) is Some {
        Some(collected(each_detail(members)))
    } else {
        None
    }
}

/// The artifacts that a JSON value stands for: an object whose members are
/// all detail records.
pub open spec fn decode_anatomy(value: JsonTree) -> Option<Entries<DetailView>> {
    match value {
        JsonTree::Object(members) => decode_names(members),
        _ => None,
    }
}

impl HighLevelFieldAnatomy {
    #[verifier::type_invariant]
    spec fn names_are_distinct(self) -> bool {
        distinct_keys(self.names.deep_view())
    }

    /// No artifacts.
    pub fn new() -> (anatomy: HighLevelFieldAnatomy)
        ensures
            anatomy@ == Entries::<DetailView>::empty(),
    {
        let names: Vec<(String, FlakeAnatomyDetail)> = Vec::new();
        assert(names.deep_view() =~= Entries::<DetailView>::empty());
        HighLevelFieldAnatomy { names }
    }

    /// Puts a detail record under an invocation name, in place of the one that
    /// was there if the name is known.
    pub fn insert(&mut self, invocation: String, detail: FlakeAnatomyDetail)
        ensures
            final(self)@ == upsert(old(self)@, invocation@, detail@),
    {
        proof {
            use_type_invariant(&*self);
            lemma_upsert_distinct(self.names.deep_view(), invocation@, detail@);
        }
        let mut names: Vec<(String, FlakeAnatomyDetail)> = Vec::new();
        assert(names.deep_view() =~= Entries::<DetailView>::empty());
        core::mem::swap(&mut self.names, &mut names);
        put(&mut names, invocation, detail);
        self.names = names;
    }

    /// The artifacts, each with its invocation name.
    pub fn names(&self) -> (names: &Vec<(String, FlakeAnatomyDetail)>)
        ensures
            names.deep_view() == self@,
            distinct_keys(self@),
    {
        proof {
            use_type_invariant(self);
        }
        &self.names
    }

    /// Reads the artifacts of one platform from a JSON value.
    pub fn from_json(value: &Json) -> (read: Result<HighLevelFieldAnatomy, ParseError>)
        ensures
            match decode_anatomy(value@) {
                Some(names) => read matches Ok(anatomy) && anatomy@ == names,
                None => read == Err::<HighLevelFieldAnatomy, ParseError>(ParseError::Shape),
            },
    {
        let members = match value.members() {
            Some(members) => members,
            None => {
                return Err(ParseError::Shape);
            },
        };
        let ghost shown = members.deep_view();
        let ghost decoded = each_detail(shown);
        let mut anatomy = HighLevelFieldAnatomy::new();
        let mut i: usize = 0;
        assert(decoded.take(0) =~= Entries::<DetailView>::empty());
        while i < members.len()
            invariant
                i <= members.len(),
                shown == members.deep_view(),
                value@ == JsonTree::Object(shown),
                decoded == each_detail(shown),
                forall|j: int| 0 <= j < i ==> decode_detail(#[trigger] shown[j].1) is Some,
                anatomy@ == collected(decoded.take(i as int)),
            decreases members.len() - i,
        {
            let detail = match FlakeAnatomyDetail::from_json(&members[i].1) {
                Ok(detail) => detail,
                Err(e) => {
                    assert(decode_detail(shown[i as int].1) is None);
                    return Err(e);
                },
            };
            anatomy.insert(members[i].0.clone(), detail);
            proof {
                let next = decoded.take(i + 1);
                assert(next.drop_last() =~= decoded.take(i as int));
                assert(next.last() == decoded[i as int]);
            }
            i = i + 1;
        }
        assert(decoded.take(i as int) =~= decoded);
        Ok(anatomy)
    }
}

/// One category: the artifacts of each platform, under the platform's name.
pub type Category = Entries<Entries<DetailView>>;

/// No platform occurs twice, and within a platform no invocation name.
pub open spec fn well_formed(category: Category) -> bool {
    &&& distinct_keys(category)
    &&& forall|i: int| 0 <= i < category.len() ==> distinct_keys(#[trigger] category[i].1)
}

/// Putting the artifacts of a platform keeps a category well formed.
pub proof fn lemma_upsert_well_formed(
    category: Category,
    system: Seq<char>,
    names: Entries<DetailView>,
)
    requires
        well_formed(category),
        distinct_keys(names),
    ensures
        well_formed(upsert(category, system, names)),
{
    lemma_upsert_distinct(category, system, names);
    lemma_position(category, system);
    let after = upsert(category, system, names);
    assert forall|i: int| 0 <= i < after.len() implies distinct_keys(#[trigger] after[i].1) by {
        if i < category.len() && after[i] != (system, names) {
            assert(after[i] == category[i]);
        }
    }
}

/// What `collected` builds from platforms whose names are distinct is well
/// formed.
pub proof fn lemma_collected_well_formed(systems: Category)
    requires
        forall|i: int| 0 <= i < systems.len() ==> distinct_keys(#[trigger] systems[i].1),
    ensures
        well_formed(collected(systems)),
    decreases systems.len(),
{
    if systems.len() > 0 {
        let front = systems.drop_last();
        assert forall|i: int| 0 <= i < front.len() implies distinct_keys(#[trigger] front[i].1) by {
            assert(front[i] == systems[i]);
        }
        lemma_collected_well_formed(front);
        lemma_upsert_well_formed(collected(front), systems.last().0, systems.last().1);
    }
}

/// Each member with the artifacts its value stands for, in the members'
/// order. It is meant for members that all stand for the artifacts of a
/// platform.
pub open spec fn each_anatomy(members: Entries<JsonTree>) -> Category {
    Seq::new(members.len(), |i: int| (members[i].0, decode_anatomy(members[i].1)->Some_0))
}

/// The platforms that the members of an object stand for, or `None` where one
/// of them does not hold the artifacts of a platform. A platform that occurs
/// again replaces what was under it.
pub open spec fn decode_systems(members: Entries<JsonTree>) -> Option<Category> {
    if forall|i: int| 0 <= i < members.len() ==> decode_anatomy(#[trigger] members[i].1) is Some {
        Some(collected(each_anatomy(members)))
    } else {
        None
    }
}

/// The category under `key` at the top of a document. A missing member stands
/// for a category without platforms; one that is there has to be an object.
pub open spec fn decode_category(top: Entries<JsonTree>, key: Seq<char>) -> Option<Category> {
    match lookup(top, key) {
        None => Some(Seq::empty()),
        Some(JsonTree::Object(systems)) => decode_systems(systems),
        Some(_) => None,
    }
}

/// The tool's output as mathematical values.
pub struct FlakeShowOutputView {
    pub dev_shells: Category,
    pub packages: Category,
}

impl FlakeShowOutputView {
    /// Both categories are well formed.
    pub open spec fn wf(self) -> bool {
        well_formed(self.dev_shells) && well_formed(self.packages)
    }
}

/// The output that a document stands for: an object whose members
/// `devShells` and `packages`, where they are there, are categories. Other
/// members are ignored.
pub open spec fn decode_output(doc: JsonTree) -> Option<FlakeShowOutputView> {
    match doc {
        JsonTree::Object(top) => match (
            decode_category(top, "devShells"@),
            decode_category(top, "packages"@),
        ) {
            (Some(dev_shells), Some(packages)) => Some(FlakeShowOutputView { dev_shells, packages }),
            _ => None,
        },
        _ => None,
    }
}

/// The platforms read from the members of an object are well formed.
pub proof fn lemma_decoded_systems_are_well_formed(members: Entries<JsonTree>)
    requires
        decode_systems(members) is Some,
    ensures
        well_formed(decode_systems(members)->Some_0),
{
    let each = each_anatomy(members);
    assert forall|i: int| 0 <= i < each.len() implies distinct_keys(#[trigger] each[i].1) by {
        assert(decode_anatomy(members[i].1) is Some);
        lemma_collected_distinct(each_detail(members[i].1->Object_0));
    }
    lemma_collected_well_formed(each);
}

/// What is read from a document is well formed: in neither category does a
/// platform occur twice, nor an invocation name within a platform.
pub proof fn lemma_decoded_output_is_well_formed(doc: JsonTree)
    requires
        decode_output(doc) is Some,
    ensures
        decode_output(doc)->Some_0.wf(),
{
    let top = doc->Object_0;
    if lookup(top, "devShells"@) is Some {
        lemma_decoded_systems_are_well_formed(lookup(top, "devShells"@)->Some_0->Object_0);
    }
    if lookup(top, "packages"@) is Some {
        lemma_decoded_systems_are_well_formed(lookup(top, "packages"@)->Some_0->Object_0);
    }
}

/// A category that is missing at the top of a document is read as a category
/// without platforms, and takes nothing from the reading of the other one.
pub proof fn lemma_missing_category_is_empty(top: Entries<JsonTree>)
    ensures
        lookup(top, "devShells"@) is None ==> decode_category(top, "devShells"@) == Some(
            Category::empty(),
        ),
        lookup(top, "packages"@) is None ==> decode_category(top, "packages"@) == Some(
            Category::empty(),
        ),
        lookup(top, "devShells"@) is None ==> decode_output(JsonTree::Object(top))
            == match decode_category(top, "packages"@) {
            Some(packages) => Some(FlakeShowOutputView { dev_shells: Seq::empty(), packages }),
            None => None,
        },
        lookup(top, "packages"@) is None ==> decode_output(JsonTree::Object(top))
            == match decode_category(top, "devShells"@) {
            Some(dev_shells) => Some(FlakeShowOutputView { dev_shells, packages: Seq::empty() }),
            None => None,
        },
{
}

/// An object without `name` or without `type` is no detail record.
pub proof fn lemma_detail_needs_name_and_type(members: Entries<JsonTree>)
    requires
        lookup(members, "name"@) is None || lookup(members, "type"@) is None,
    ensures
        decode_detail(JsonTree::Object(members)) is None,
{
}

/// One value in a category that is no detail record makes the whole document
/// unreadable: nothing is read around it. `systems` is the object under
/// `devShells` or `packages`, `names` an object under one of its platforms,
/// and `record` the place in it of a value that is no detail record.
pub proof fn lemma_one_bad_record_fails_the_document(
    top: Entries<JsonTree>,
    key: Seq<char>,
    systems: Entries<JsonTree>,
    system: int,
    names: Entries<JsonTree>,
    record: int,
)
    requires
        key == "devShells"@ || key == "packages"@,
        lookup(top, key) == Some(JsonTree::Object(systems)),
        0 <= system < systems.len(),
        systems[system].1 == JsonTree::Object(names),
        0 <= record < names.len(),
        decode_detail(names[record].1) is None,
    ensures
        decode_output(JsonTree::Object(top)) is None,
{
    assert(decode_names(names) is None);
    assert(decode_anatomy(systems[system].1) is None);
    assert(decode_systems(systems) is None);
    assert(decode_category(top, key) is None);
}

/// Where no name occurs twice among the members, each member is read as one
/// detail record, in the members' order.
pub proof fn lemma_decode_names_of_distinct(members: Entries<JsonTree>)
    requires
        distinct_keys(members),
        decode_names(members) is Some,
    ensures
        decode_names(members) == Some(each_detail(members)),
{
    lemma_collected_of_distinct(each_detail(members));
}

/// Where no platform occurs twice among the members, each member is read as
/// one platform, in the members' order.
pub proof fn lemma_decode_systems_of_distinct(members: Entries<JsonTree>)
    requires
        distinct_keys(members),
        decode_systems(members) is Some,
    ensures
        decode_systems(members) == Some(each_anatomy(members)),
{
    lemma_collected_of_distinct(each_anatomy(members));
}

/// How many members the objects under the members of `systems` have in all:
/// the invocation names of a category as it stands in a document.
pub open spec fn member_count(systems: Entries<JsonTree>) -> nat
    decreases systems.len(),
{
    if systems.len() == 0 {
        0
    } else {
        member_count(systems.drop_last()) + match systems.last().1 {
            JsonTree::Object(names) => names.len(),
            _ => 0,
        }
    }
}

/// No key occurs twice among the members, nor among the members of an object
/// under one of them.
pub open spec fn keys_are_distinct(systems: Entries<JsonTree>) -> bool {
    &&& distinct_keys(systems)
    &&& forall|i: int|
        0 <= i < systems.len() && (#[trigger] systems[i].1) is Object ==> distinct_keys(
            systems[i].1->Object_0,
        )
}

/// Each platform read by itself holds as many detail records as its object
/// has members.
proof fn lemma_each_anatomy_count(systems: Entries<JsonTree>)
    requires
        forall|i: int| 0 <= i < systems.len() ==> decode_anatomy(#[trigger] systems[i].1) is Some,
        forall|i: int|
            0 <= i < systems.len() && (#[trigger] systems[i].1) is Object ==> distinct_keys(
                systems[i].1->Object_0,
            ),
    ensures
        total(each_anatomy(systems)) == member_count(systems),
    decreases systems.len(),
{
    if systems.len() > 0 {
        let front = systems.drop_last();
        assert(forall|i: int| 0 <= i < front.len() ==> front[i] == systems[i]);
        assert(each_anatomy(systems).drop_last() =~= each_anatomy(front));
        lemma_each_anatomy_count(front);
        let last = systems.last().1;
        assert(decode_anatomy(last) is Some);
        lemma_decode_names_of_distinct(last->Object_0);
    }
}

/// Reading a category of a document loses no invocation name and adds none:
/// where no key occurs twice, the category read holds as many detail records
/// as the objects of the document have members.
pub proof fn lemma_decoding_keeps_count(systems: Entries<JsonTree>)
    requires
        keys_are_distinct(systems),
        decode_systems(systems) is Some,
    ensures
        total(decode_systems(systems)->Some_0) == member_count(systems),
{
    lemma_decode_systems_of_distinct(systems);
    lemma_each_anatomy_count(systems);
}

/// Reads the platforms of one category from the members of an object.
fn read_systems(members: &Vec<(String, Json)>) -> (read: Result<
    Vec<(String, HighLevelFieldAnatomy)>,
    ParseError,
>)
    ensures
        match decode_systems(members.deep_view()) {
            Some(category) => read matches Ok(systems) && systems.deep_view() == category
                && well_formed(category),
            None => read == Err::<Vec<(String, HighLevelFieldAnatomy)>, ParseError>(
                ParseError::Shape,
            ),
        },
{
    let ghost shown = members.deep_view();
    let ghost decoded = each_anatomy(shown);
    let mut systems: Vec<(String, HighLevelFieldAnatomy)> = Vec::new();
    let mut i: usize = 0;
    assert(decoded.take(0) =~= Category::empty());
    assert(systems.deep_view() =~= Category::empty());
    while i < members.len()
        invariant
            i <= members.len(),
            shown == members.deep_view(),
            decoded == each_anatomy(shown),
            forall|j: int| 0 <= j < i ==> decode_anatomy(#[trigger] shown[j].1) is Some,
            forall|j: int| 0 <= j < i ==> distinct_keys(#[trigger] decoded[j].1),
            systems.deep_view() == collected(decoded.take(i as int)),
        decreases members.len() - i,
    {
        let anatomy = match HighLevelFieldAnatomy::from_json(&members[i].1) {
            Ok(anatomy) => anatomy,
            Err(e) => {
                assert(decode_anatomy(shown[i as int].1) is None);
                return Err(e);
            },
        };
        proof {
            use_type_invariant(&anatomy);
            let next = decoded.take(i + 1);
            assert(next.drop_last() =~= decoded.take(i as int));
            assert(next.last() == decoded[i as int]);
        }
        put(&mut systems, members[i].0.clone(), anatomy);
        i = i + 1;
    }
    proof {
        assert(decoded.take(i as int) =~= decoded);
        lemma_collected_well_formed(decoded);
    }
    Ok(systems)
}

/// Reads the category under `key` at the top of a document.
fn read_category(top: &Vec<(String, Json)>, key: &str) -> (read: Result<
    Vec<(String, HighLevelFieldAnatomy)>,
    ParseError,
>)
    ensures
        match decode_category(top.deep_view(), key@) {
            Some(category) => read matches Ok(systems) && systems.deep_view() == category
                && well_formed(category),
            None => read == Err::<Vec<(String, HighLevelFieldAnatomy)>, ParseError>(
                ParseError::Shape,
            ),
        },
{
    match member(top, key) {
        None => {
            let systems: Vec<(String, HighLevelFieldAnatomy)> = Vec::new();
            assert(systems.deep_view() =~= Category::empty());
            Ok(systems)
        },
        Some(value) => match value.members() {
            Some(members) => read_systems(members),
            None => Err(ParseError::Shape),
        },
    }
}

/// What the tool prints: the development shells and the packages, each by
/// platform. Within a category no platform occurs twice.
#[derive(Debug)]
pub struct FlakeShowOutput {
    dev_shells: Vec<(String, HighLevelFieldAnatomy)>,
    packages: Vec<(String, HighLevelFieldAnatomy)>,
}

impl View for FlakeShowOutput {
    type V = FlakeShowOutputView;

    closed spec fn view(&self) -> FlakeShowOutputView {
        FlakeShowOutputView {
            dev_shells: self.dev_shells.deep_view(),
            packages: self.packages.deep_view(),
        }
    }
}

impl FlakeShowOutput {
    #[verifier::type_invariant]
    spec fn categories_are_well_formed(self) -> bool {
        well_formed(self.dev_shells.deep_view()) && well_formed(self.packages.deep_view())
    }

    /// Output without any artifact.
    pub fn new() -> (output: FlakeShowOutput)
        ensures
            output@ == (FlakeShowOutputView { dev_shells: Seq::empty(), packages: Seq::empty() }),
    {
        let dev_shells: Vec<(String, HighLevelFieldAnatomy)> = Vec::new();
        let packages: Vec<(String, HighLevelFieldAnatomy)> = Vec::new();
        assert(dev_shells.deep_view() =~= Category::empty());
        assert(packages.deep_view() =~= Category::empty());
        FlakeShowOutput { dev_shells, packages }
    }

    /// Puts the development shells of a platform, in place of those that were
    /// there if the platform is known.
    pub fn insert_dev_shells(&mut self, system: String, anatomy: HighLevelFieldAnatomy)
        ensures
            final(self)@ == (FlakeShowOutputView {
                dev_shells: upsert(old(self)@.dev_shells, system@, anatomy@),
                ..old(self)@
            }),
    {
        proof {
            use_type_invariant(&*self);
            use_type_invariant(&anatomy);
            lemma_upsert_well_formed(self.dev_shells.deep_view(), system@, anatomy@);
        }
        let mut systems: Vec<(String, HighLevelFieldAnatomy)> = Vec::new();
        assert(systems.deep_view() =~= Category::empty());
        core::mem::swap(&mut self.dev_shells, &mut systems);
        put(&mut systems, system, anatomy);
        self.dev_shells = systems;
    }

    /// Puts the packages of a platform, in place of those that were there if
    /// the platform is known.
    pub fn insert_packages(&mut self, system: String, anatomy: HighLevelFieldAnatomy)
        ensures
            final(self)@ == (FlakeShowOutputView {
                packages: upsert(old(self)@.packages, system@, anatomy@),
                ..old(self)@
            }),
    {
        proof {
            use_type_invariant(&*self);
            use_type_invariant(&anatomy);
            lemma_upsert_well_formed(self.packages.deep_view(), system@, anatomy@);
        }
        let mut systems: Vec<(String, HighLevelFieldAnatomy)> = Vec::new();
        assert(systems.deep_view() =~= Category::empty());
        core::mem::swap(&mut self.packages, &mut systems);
        put(&mut systems, system, anatomy);
        self.packages = systems;
    }

    /// The development shells, by platform.
    pub fn dev_shells(&self) -> (systems: &Vec<(String, HighLevelFieldAnatomy)>)
        ensures
            systems.deep_view() == self@.dev_shells,
            self@.wf(),
    {
        proof {
            use_type_invariant(self);
        }
        &self.dev_shells
    }

    /// The packages, by platform.
    pub fn packages(&self) -> (systems: &Vec<(String, HighLevelFieldAnatomy)>)
        ensures
            systems.deep_view() == self@.packages,
            self@.wf(),
    {
        proof {
            use_type_invariant(self);
        }
        &self.packages
    }

    /// Reads the tool's output from a JSON document.
    pub fn from_json(doc: &Json) -> (read: Result<FlakeShowOutput, ParseError>)
        ensures
            match decode_output(doc@) {
                Some(output) => read matches Ok(raw) && raw@ == output,
                None => read == Err::<FlakeShowOutput, ParseError>(ParseError::Shape),
            },
    {
        let top = match doc.members() {
            Some(top) => top,
            None => {
                return Err(ParseError::Shape);
            },
        };
        let dev_shells = match read_category(top, "devShells") {
            Ok(systems) => systems,
            Err(e) => {
                return Err(e);
            },
        };
        let packages = match read_category(top, "packages") {
            Ok(systems) => systems,
            Err(e) => {
                return Err(e);
            },
        };
        Ok(FlakeShowOutput { dev_shells, packages })
    }
}

} // verus!
