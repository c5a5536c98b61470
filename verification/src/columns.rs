//! Column extraction: the ordered column/value pairs of one entity.

use vstd::prelude::*;
use crate::dynamic::{coerced, val_to_basic_type, DynamicValue};
use crate::error::{Error, Failure};
use crate::value::{BasicType, Value};

verus! {

/// Ordered column/value pairs, as mathematics sees them: each a name and a
/// value.
pub type Columns = Seq<(Seq<char>, Value)>;

/// Whether every name is non-empty and no name occurs twice.
pub open spec fn well_formed(columns: Columns) -> bool {
    &&& forall|i: int| 0 <= i < columns.len() ==> (#[trigger] columns[i]).0.len() > 0
    &&& forall|i: int, j: int|
        0 <= i < j < columns.len() ==> (#[trigger] columns[i]).0 != (#[trigger] columns[j]).0
}

/// Whether `index` is a place where `name` stands.
pub open spec fn stands_at(columns: Columns, name: Seq<char>, index: int) -> bool {
    0 <= index < columns.len() && columns[index].0 == name
}

/// Whether some pair has the name `name`.
pub open spec fn has_column(columns: Columns, name: Seq<char>) -> bool {
    exists|i: int| stands_at(columns, name, i)
}

/// A place where `name` stands, if there is one.
pub open spec fn place_of(columns: Columns, name: Seq<char>) -> int {
    choose|i: int| stands_at(columns, name, i)
}

/// The value under `name`, if a pair has that name.
pub open spec fn value_under(columns: Columns, name: Seq<char>) -> Option<Value> {
    if has_column(columns, name) {
        Some(columns[place_of(columns, name)].1)
    } else {
        None
    }
}

/// The pairs after `value` is put under `name`: in place of the pair of that
/// name where there is one, else behind all others.
pub open spec fn put(columns: Columns, name: Seq<char>, value: Value) -> Columns {
    if has_column(columns, name) {
        columns.update(place_of(columns, name), (name, value))
    } else {
        columns.push((name, value))
    }
}

/// The test that a pair passes when its name is not in the skip-list.
pub open spec fn unlisted(skip: Seq<Seq<char>>) -> spec_fn((Seq<char>, Value)) -> bool {
    |pair: (Seq<char>, Value)| !skip.contains(pair.0)
}

/// The pairs whose names are not in the skip-list, in their order.
pub open spec fn kept(columns: Columns, skip: Seq<Seq<char>>) -> Columns {
    columns.filter(unlisted(skip))
}

/// The names of the pairs, in order.
pub open spec fn names_of(columns: Columns) -> Seq<Seq<char>> {
    columns.map_values(|pair: (Seq<char>, Value)| pair.0)
}

/// The values of the pairs, in order.
pub open spec fn values_of(columns: Columns) -> Seq<Value> {
    columns.map_values(|pair: (Seq<char>, Value)| pair.1)
}

/// The extraction result of one entity: its column/value pairs, in the order
/// in which the columns first came in.
///
/// Every name is non-empty and occurs once.
#[derive(Debug, PartialEq, Eq)]
pub struct ColumnValueMap {
    pairs: Vec<(String, BasicType)>,
}

impl View for ColumnValueMap {
    type V = Columns;

    closed spec fn view(&self) -> Columns {
        self.pairs@.map_values(|pair: (String, BasicType)| (pair.0@, pair.1@))
    }
}

impl ColumnValueMap {
    /// What holds of every map: its pairs are well formed.
    #[verifier::type_invariant]
    pub open spec fn holds(self) -> bool {
        well_formed(self@)
    }

    /// A map without columns.
    pub fn new() -> (map: ColumnValueMap)
        ensures
            map@ == Columns::empty(),
    {
        let map = ColumnValueMap { pairs: Vec::new() };
        assert(map@ =~= Columns::empty());
        map
    }

    /// The number of columns.
    pub fn len(&self) -> (n: usize)
        ensures
            n == self@.len(),
    {
        self.pairs.len()
    }

    /// Whether the map has no column.
    pub fn is_empty(&self) -> (empty: bool)
        ensures
            empty == (self@.len() == 0),
    {
        self.pairs.len() == 0
    }

    /// The place of the column `name`, if the map has it.
    fn find(&self, name: &str) -> (place: Option<usize>)
        ensures
            match place {
                Some(i) => stands_at(self@, name@, i as int) && place_of(self@, name@) == i,
                None => !has_column(self@, name@),
            },
    {
        proof {
            use_type_invariant(self);
        }
        let mut i: usize = 0;
        while i < self.pairs.len()
            invariant
                i <= self.pairs.len(),
                self@.len() == self.pairs.len(),
                well_formed(self@),
                forall|k: int| 0 <= k < i ==> !stands_at(self@, name@, k),
            decreases self.pairs.len() - i,
        {
            if crate::text::same_text(self.pairs[i].0.as_str(), name) {
                proof {
                    let columns = self@;
                    assert(stands_at(columns, name@, i as int));
                    let j = place_of(columns, name@);
                    assert(stands_at(columns, name@, j));
                    if j != i {
                        assert(columns[j].0 == columns[i as int].0);
                    }
                }
                return Some(i);
            }
            i += 1;
        }
        None
    }

    /// The name of the column at `index`.
    pub fn name_at(&self, index: usize) -> (name: &str)
        requires
            index < self@.len(),
        ensures
            name@ == self@[index as int].0,
    {
        self.pairs[index].0.as_str()
    }

    /// The value of the column at `index`.
    pub fn value_at(&self, index: usize) -> (value: &BasicType)
        requires
            index < self@.len(),
        ensures
            value@ == self@[index as int].1,
    {
        &self.pairs[index].1
    }

    /// The value of the column `name`, if the map has that column.
    pub fn get(&self, name: &str) -> (value: Option<&BasicType>)
        ensures
            match value {
                Some(v) => value_under(self@, name@) == Some(v@),
                None => value_under(self@, name@) is None,
            },
    {
        match self.find(name) {
            Some(i) => Some(&self.pairs[i].1),
            None => None,
        }
    }

    /// The map without the columns that the skip-list names. The other
    /// columns keep their order. A name of the list that the map does not
    /// have is passed over.
    pub fn without(&self, skip_cols: &[&str]) -> (rest: ColumnValueMap)
        ensures
            rest@ == kept(self@, crate::text::slice_texts(skip_cols@)),
            well_formed(rest@),
    {
        proof {
            use_type_invariant(self);
        }
        let ghost skip = crate::text::slice_texts(skip_cols@);
        let mut pairs: Vec<(String, BasicType)> = Vec::new();
        let mut i: usize = 0;
        while i < self.pairs.len()
            invariant
                i <= self.pairs.len(),
                self@.len() == self.pairs.len(),
                skip == crate::text::slice_texts(skip_cols@),
                pairs@.map_values(|p: (String, BasicType)| (p.0@, p.1@)) == kept(
                    self@.take(i as int),
                    skip,
                ),
            decreases self.pairs.len() - i,
        {
            let ghost before = self@.take(i as int);
            proof {
                assert(self@.take(i + 1) =~= before.push(self@[i as int]));
                before.lemma_filter_push(self@[i as int], unlisted(skip));
            }
            if !crate::text::is_listed(skip_cols, self.pairs[i].0.as_str()) {
                pairs.push((self.pairs[i].0.clone(), self.pairs[i].1.clone()));
                assert(pairs@.map_values(|p: (String, BasicType)| (p.0@, p.1@)) =~= kept(
                    before,
                    skip,
                ).push(self@[i as int]));
            }
            i += 1;
        }
        proof {
            assert(self@.take(self.pairs.len() as int) =~= self@);
            lemma_kept_is_well_formed(self@, skip);
        }
        ColumnValueMap { pairs }
    }

    /// The names of the columns, in order.
    pub fn names(&self) -> (names: Vec<String>)
        ensures
            crate::text::texts(names@) == names_of(self@),
    {
        let mut names: Vec<String> = Vec::new();
        let mut i: usize = 0;
        while i < self.pairs.len()
            invariant
                i <= self.pairs.len(),
                self@.len() == self.pairs.len(),
                names@.len() == i,
                crate::text::texts(names@) == names_of(self@.take(i as int)),
            decreases self.pairs.len() - i,
        {
            let ghost earlier = names@;
            names.push(self.pairs[i].0.clone());
            proof {
                let now = crate::text::texts(names@);
                let goal = names_of(self@.take(i + 1));
                assert(now.len() == goal.len());
                assert forall|k: int| 0 <= k < now.len() implies now[k] == goal[k] by {
                    if k < i {
                        assert(now[k] == crate::text::texts(earlier)[k]);
                        assert(goal[k] == names_of(self@.take(i as int))[k]);
                    }
                }
                assert(now =~= goal);
            }
            i += 1;
        }
        assert(self@.take(self.pairs.len() as int) =~= self@);
        names
    }

    /// The values of the columns, in order.
    pub fn values(&self) -> (values: Vec<BasicType>)
        ensures
            crate::value::views(values@) == values_of(self@),
    {
        let mut values: Vec<BasicType> = Vec::new();
        let mut i: usize = 0;
        while i < self.pairs.len()
            invariant
                i <= self.pairs.len(),
                self@.len() == self.pairs.len(),
                values@.len() == i,
                crate::value::views(values@) == values_of(self@.take(i as int)),
            decreases self.pairs.len() - i,
        {
            let ghost earlier = values@;
            values.push(self.pairs[i].1.clone());
            proof {
                let now = crate::value::views(values@);
                let goal = values_of(self@.take(i + 1));
                assert(now.len() == goal.len());
                assert forall|k: int| 0 <= k < now.len() implies now[k] == goal[k] by {
                    if k < i {
                        assert(now[k] == crate::value::views(earlier)[k]);
                        assert(goal[k] == values_of(self@.take(i as int))[k]);
                    }
                }
                assert(now =~= goal);
            }
            i += 1;
        }
        assert(self@.take(self.pairs.len() as int) =~= self@);
        values
    }

    /// Puts `value` under the column `name`.
    ///
    /// A column that the map has keeps its place and gets the new value; the
    /// old one is returned. A new column comes behind all others. The empty
    /// name is refused with `Error::UnnamedColumn`, and the map stays as it
    /// was.
    pub fn insert(&mut self, name: String, value: BasicType) -> (replaced: Result<
        Option<BasicType>,
        Error,
    >)
        ensures
            well_formed(final(self)@),
            match replaced {
                Ok(previous) => {
                    &&& name@.len() > 0
                    &&& final(self)@ == put(old(self)@, name@, value@)
                    &&& match previous {
                        Some(v) => value_under(old(self)@, name@) == Some(v@),
                        None => value_under(old(self)@, name@) is None,
                    }
                },
                Err(e) => {
                    &&& name@.len() == 0
                    &&& e@ == Failure::UnnamedColumn
                    &&& final(self)@ == old(self)@
                },
            },
    {
        proof {
            use_type_invariant(&*self);
        }
        if name.as_str().is_empty() {
            return Err(Error::UnnamedColumn);
        }
        let place = self.find(name.as_str());
        let mut pairs: Vec<(String, BasicType)> = Vec::new();
        std::mem::swap(&mut self.pairs, &mut pairs);
        let ghost before = old(self)@;
        let ghost pair = (name@, value@);
        let previous = match place {
            Some(i) => {
                let previous = pairs.remove(i);
                pairs.insert(i, (name, value));
                Some(previous.1)
            },
            None => {
                pairs.push((name, value));
                None
            },
        };
        proof {
            let after = pairs@.map_values(|p: (String, BasicType)| (p.0@, p.1@));
            if place is Some {
                assert(after =~= before.update(place_of(before, pair.0), pair));
            } else {
                assert(after =~= before.push(pair));
                assert forall|i: int| 0 <= i < before.len() implies (#[trigger] after[i]).0
                    != pair.0 by {
                    assert(!stands_at(before, pair.0, i));
                }
            }
            assert(well_formed(after));
        }
        std::mem::swap(&mut self.pairs, &mut pairs);
        Ok(previous)
    }
}

/// The mathematical value of the outcome of an extraction.
pub open spec fn extraction(columns: Result<ColumnValueMap, Error>) -> Result<Columns, Failure> {
    match columns {
        Ok(map) => Ok(map@),
        Err(e) => Err(e@),
    }
}

/// What the fields of an object extract to: each field in turn is coerced and
/// put under its name. The first field whose value the domain cannot hold
/// fails the extraction with `Unrepresentable` and its name; the first field
/// without a name, with `UnnamedColumn`.
pub open spec fn extracted_fields(fields: Seq<(String, DynamicValue)>) -> Result<Columns, Failure>
    decreases fields.len(),
{
    if fields.len() == 0 {
        Ok(Columns::empty())
    } else {
        match extracted_fields(fields.drop_last()) {
            Err(failure) => Err(failure),
            Ok(columns) => {
                let field = fields.last();
                match coerced(field.1) {
                    None => Err(Failure::Unrepresentable(field.0@)),
                    Some(value) => if field.0@.len() == 0 {
                        Err(Failure::UnnamedColumn)
                    } else {
                        Ok(put(columns, field.0@, value))
                    },
                }
            },
        }
    }
}

/// What a dynamic tree extracts to: the pairs of its fields where it is an
/// object, and `NotFlat` with the entity's description where it is not.
pub open spec fn extracted(tree: DynamicValue, entity: Seq<char>) -> Result<Columns, Failure> {
    match tree {
        DynamicValue::Object(fields) => extracted_fields(fields@),
        _ => Err(Failure::NotFlat(entity)),
    }
}

/// Extracts the column/value pairs of an entity from its decomposition into
/// a dynamic tree.
///
/// `entity` describes the entity, for the error. The tree has to be an
/// object; each of its fields is a column, and the value of each is coerced
/// into the value domain.
pub fn extract_columns(tree: &DynamicValue, entity: &str) -> (columns: Result<
    ColumnValueMap,
    Error,
>)
    ensures
        extraction(columns) == extracted(*tree, entity@),
        columns matches Ok(map) ==> well_formed(map@),
{
    let fields = match tree {
        DynamicValue::Object(fields) => fields,
        _ => {
            return Err(Error::NotFlat(entity.to_owned()));
        },
    };
    let mut map = ColumnValueMap::new();
    let mut i: usize = 0;
    while i < fields.len()
        invariant
            i <= fields.len(),
            *tree == DynamicValue::Object(*fields),
            extracted_fields(fields@.take(i as int)) == Ok::<Columns, Failure>(map@),
        decreases fields.len() - i,
    {
        assert(fields@.take(i + 1).drop_last() =~= fields@.take(i as int));
        assert(fields@.take(i + 1).last() == fields@[i as int]);
        let value = match val_to_basic_type(&fields[i].1) {
            Some(value) => value,
            None => {
                proof {
                    lemma_failure_stays(fields@, i + 1);
                }
                return Err(Error::Unrepresentable(fields[i].0.clone()));
            },
        };
        match map.insert(fields[i].0.clone(), value) {
            Ok(_) => {},
            Err(e) => {
                proof {
                    lemma_failure_stays(fields@, i + 1);
                }
                return Err(e);
            },
        }
        i += 1;
    }
    assert(fields@.take(fields.len() as int) =~= fields@);
    proof {
        use_type_invariant(&map);
    }
    Ok(map)
}

/// An extraction that has failed on the first `upto` fields fails in the
/// same way on all of them.
pub proof fn lemma_failure_stays(fields: Seq<(String, DynamicValue)>, upto: int)
    requires
        0 <= upto <= fields.len(),
        extracted_fields(fields.take(upto)) is Err,
    ensures
        extracted_fields(fields) == extracted_fields(fields.take(upto)),
    decreases fields.len(),
{
    if upto == fields.len() {
        assert(fields.take(upto) =~= fields);
    } else {
        assert(fields.drop_last().take(upto) =~= fields.take(upto));
        lemma_failure_stays(fields.drop_last(), upto);
    }
}

/// An extraction of fields that all have a name and a value of the domain
/// succeeds.
pub proof fn lemma_sound_fields_extract(fields: Seq<(String, DynamicValue)>)
    requires
        forall|k: int|
            0 <= k < fields.len() ==> coerced((#[trigger] fields[k]).1) is Some && fields[k].0@.len()
                > 0,
    ensures
        extracted_fields(fields) is Ok,
    decreases fields.len(),
{
    if fields.len() > 0 {
        let rest = fields.drop_last();
        assert forall|k: int| 0 <= k < rest.len() implies coerced((#[trigger] rest[k]).1) is Some
            && rest[k].0@.len() > 0 by {
            assert(rest[k] == fields[k]);
        }
        lemma_sound_fields_extract(rest);
        assert(fields.last() == fields[fields.len() - 1]);
    }
}

/// A field whose value the domain cannot hold fails the extraction. Where
/// every field before it has a name and a value of the domain, the failure
/// is a coercion error that names the column of that field.
pub proof fn lemma_unrepresentable_field_fails(fields: Seq<(String, DynamicValue)>, at: int)
    requires
        0 <= at < fields.len(),
        coerced(fields[at].1) is None,
    ensures
        extracted_fields(fields) is Err,
        (forall|k: int|
            0 <= k < at ==> coerced((#[trigger] fields[k]).1) is Some && fields[k].0@.len() > 0)
            ==> extracted_fields(fields) == Err::<Columns, Failure>(
            Failure::Unrepresentable(fields[at].0@),
        ),
{
    let upto = fields.take(at + 1);
    assert(upto.drop_last() =~= fields.take(at));
    assert(upto.last() == fields[at]);
    assert(extracted_fields(upto) is Err);
    lemma_failure_stays(fields, at + 1);
    if forall|k: int|
        0 <= k < at ==> coerced((#[trigger] fields[k]).1) is Some && fields[k].0@.len() > 0 {
        let before = fields.take(at);
        assert forall|k: int| 0 <= k < before.len() implies coerced((#[trigger] before[k]).1)
            is Some && before[k].0@.len() > 0 by {
            assert(before[k] == fields[k]);
        }
        lemma_sound_fields_extract(before);
    }
}

/// A skip-list that names none of the columns leaves all of them.
pub proof fn lemma_unknown_names_are_ignored(columns: Columns, skip: Seq<Seq<char>>)
    requires
        forall|k: int| 0 <= k < skip.len() ==> !has_column(columns, #[trigger] skip[k]),
    ensures
        kept(columns, skip) == columns,
    decreases columns.len(),
{
    let chosen = unlisted(skip);
    if columns.len() > 0 {
        let rest = columns.drop_last();
        assert forall|k: int| 0 <= k < skip.len() implies !has_column(rest, #[trigger] skip[k]) by {
            if has_column(rest, skip[k]) {
                let i = choose|i: int| stands_at(rest, skip[k], i);
                assert(stands_at(columns, skip[k], i));
            }
        }
        lemma_unknown_names_are_ignored(rest, skip);
        if skip.contains(columns.last().0) {
            let k = choose|k: int| 0 <= k < skip.len() && skip[k] == columns.last().0;
            assert(stands_at(columns, skip[k], columns.len() - 1));
        }
        assert(chosen(columns.last()));
        assert(rest.push(columns.last()) =~= columns);
        rest.lemma_filter_push(columns.last(), chosen);
    }
}

/// What is kept of well-formed pairs is well formed, and holds no name of
/// the skip-list.
pub proof fn lemma_kept_is_well_formed(columns: Columns, skip: Seq<Seq<char>>)
    requires
        well_formed(columns),
    ensures
        well_formed(kept(columns, skip)),
        forall|k: int|
            0 <= k < kept(columns, skip).len() ==> !skip.contains(
                (#[trigger] kept(columns, skip)[k]).0,
            ) && has_column(columns, kept(columns, skip)[k].0),
    decreases columns.len(),
{
    let chosen = unlisted(skip);
    if columns.len() > 0 {
        let rest = columns.drop_last();
        let last = columns.last();
        assert(well_formed(rest)) by {
            assert forall|i: int| 0 <= i < rest.len() implies (#[trigger] rest[i]).0.len() > 0 by {
                assert(rest[i] == columns[i]);
            }
            assert forall|i: int, j: int| 0 <= i < j < rest.len() implies (#[trigger] rest[i]).0
                != (#[trigger] rest[j]).0 by {
                assert(rest[i] == columns[i] && rest[j] == columns[j]);
            }
        }
        lemma_kept_is_well_formed(rest, skip);
        let got = kept(rest, skip);
        assert(rest.push(last) =~= columns);
        rest.lemma_filter_push(last, chosen);
        assert forall|k: int| 0 <= k < got.len() implies has_column(columns, (#[trigger] got[k]).0)
            && got[k].0 != last.0 by {
            let i = choose|i: int| stands_at(rest, got[k].0, i);
            assert(stands_at(rest, got[k].0, i));
            assert(stands_at(columns, got[k].0, i));
            assert(columns[i].0 != columns[columns.len() - 1].0);
        }
        if chosen(last) {
            assert(kept(columns, skip) == got.push(last));
            assert(stands_at(columns, last.0, columns.len() - 1));
            assert(columns[columns.len() - 1].0.len() > 0);
        } else {
            assert(kept(columns, skip) == got);
        }
    }
}

} // verus!
