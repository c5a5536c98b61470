//! The two traits that an entity implements to be mapped.
//!
//! An entity says which table holds it and what its columns are. The traits
//! prepare from that the statement of each operation. Running a statement
//! against the store, and making entities of the rows that come back, is the
//! caller's part.

use vstd::prelude::*;
use crate::columns::{extraction, ColumnValueMap};
use crate::error::Error;
use crate::statement::{
    deleting, inserting_extracted, outcome, prepare_delete, prepare_insert, prepare_select_many,
    prepare_select_one, prepare_upsert, selecting_many, selecting_one, upserting_extracted,
    Statement,
};
use crate::text::slice_texts;
use crate::value::BasicType;

verus! {

/// An entity that a table of the store holds.
///
/// `table_name` and `map_cols_to_vals` describe the entity, and what they
/// return is the implementor's. The other methods prepare a statement from
/// what those two return.
pub trait SqliteModel: Sized {
    /// The name of the table that holds entities of this type.
    fn table_name() -> String;

    /// The column/value pairs of this entity: written out by hand, or
    /// extracted from a decomposition of the entity with
    /// `columns::extract_columns`.
    fn map_cols_to_vals(&self) -> Result<ColumnValueMap, Error>;

    /// Prepares the insert of this entity, leaving out the columns that
    /// `skip_cols` names, so that the store gives them their defaults.
    ///
    /// Fails where the extraction fails, and with `Error::NoColumns` where
    /// no column is left.
    fn insert(&self, skip_cols: &[&str]) -> (prepared: Result<Statement, Error>)
        ensures
            exists|table: String, columns: Result<ColumnValueMap, Error>|
                #![trigger
                    call_ensures(Self::table_name, (), table),
                    call_ensures(Self::map_cols_to_vals, (self,), columns),
                ]
                call_ensures(Self::table_name, (), table) && call_ensures(
                    Self::map_cols_to_vals,
                    (self,),
                    columns,
                ) && outcome(prepared) == inserting_extracted(
                    table@,
                    extraction(columns),
                    slice_texts(skip_cols@),
                ),
    {
        let table = Self::table_name();
        let extracted = self.map_cols_to_vals();
        let ghost columns = extracted;
        let prepared = match extracted {
            Ok(map) => prepare_insert(table.as_str(), &map, skip_cols),
            Err(e) => Err(e),
        };
        assert(call_ensures(Self::table_name, (), table) && call_ensures(
            Self::map_cols_to_vals,
            (self,),
            columns,
        ) && outcome(prepared) == inserting_extracted(
            table@,
            extraction(columns),
            slice_texts(skip_cols@),
        ));
        prepared
    }

    /// Prepares the upsert of this entity: an insert that, where a row with
    /// the same value in `conflict_col` is there, sets the columns of that
    /// row instead. `skip_cols` is as for `insert`.
    ///
    /// Fails where the extraction fails, with `Error::NoColumns` where no
    /// column is left, and with `Error::NoConflictColumn` where
    /// `conflict_col` is empty.
    fn upsert(&self, skip_cols: &[&str], conflict_col: &str) -> (prepared: Result<
        Statement,
        Error,
    >)
        ensures
            exists|table: String, columns: Result<ColumnValueMap, Error>|
                #![trigger
                    call_ensures(Self::table_name, (), table),
                    call_ensures(Self::map_cols_to_vals, (self,), columns),
                ]
                call_ensures(Self::table_name, (), table) && call_ensures(
                    Self::map_cols_to_vals,
                    (self,),
                    columns,
                ) && outcome(prepared) == upserting_extracted(
                    table@,
                    extraction(columns),
                    slice_texts(skip_cols@),
                    conflict_col@,
                ),
    {
        let table = Self::table_name();
        let extracted = self.map_cols_to_vals();
        let ghost columns = extracted;
        let prepared = match extracted {
            Ok(map) => prepare_upsert(table.as_str(), &map, skip_cols, conflict_col),
            Err(e) => Err(e),
        };
        assert(call_ensures(Self::table_name, (), table) && call_ensures(
            Self::map_cols_to_vals,
            (self,),
            columns,
        ) && outcome(prepared) == upserting_extracted(
            table@,
            extraction(columns),
            slice_texts(skip_cols@),
            conflict_col@,
        ));
        prepared
    }

    /// Prepares the select of the one row with `val` in `col`.
    fn select_one(col: &str, val: BasicType) -> (statement: Statement)
        ensures
            exists|table: String| #[trigger]
                call_ensures(Self::table_name, (), table) && statement@ == selecting_one(
                    table@,
                    col@,
                    val@,
                ),
    {
        let table = Self::table_name();
        let statement = prepare_select_one(table.as_str(), col, val);
        assert(call_ensures(Self::table_name, (), table) && statement@ == selecting_one(
            table@,
            col@,
            val@,
        ));
        statement
    }

    /// Prepares the select of every row with `val` in `col`.
    fn select_many(col: &str, val: BasicType) -> (statement: Statement)
        ensures
            exists|table: String| #[trigger]
                call_ensures(Self::table_name, (), table) && statement@ == selecting_many(
                    table@,
                    col@,
                    val@,
                ),
    {
        let table = Self::table_name();
        let statement = prepare_select_many(table.as_str(), col, val);
        assert(call_ensures(Self::table_name, (), table) && statement@ == selecting_many(
            table@,
            col@,
            val@,
        ));
        statement
    }

    /// Prepares the delete of every row with `val` in `col`. The statement
    /// returns the rows that it deletes.
    fn delete(col: &str, val: BasicType) -> (statement: Statement)
        ensures
            exists|table: String| #[trigger]
                call_ensures(Self::table_name, (), table) && statement@ == deleting(
                    table@,
                    col@,
                    val@,
                ),
    {
        let table = Self::table_name();
        let statement = prepare_delete(table.as_str(), col, val);
        assert(call_ensures(Self::table_name, (), table) && statement@ == deleting(
            table@,
            col@,
            val@,
        ));
        statement
    }
}

/// An entity that is served as a resource, under its primary key.
pub trait AxumModel: SqliteModel {
    /// The name of the column that holds the primary key.
    fn primary_col() -> String;

    /// Prepares the read of the entity with the given primary key.
    fn get_json(primary_key: BasicType) -> (statement: Statement)
        ensures
            exists|table: String, primary: String|
                #![trigger
                    call_ensures(Self::table_name, (), table),
                    call_ensures(Self::primary_col, (), primary),
                ]
                call_ensures(Self::table_name, (), table) && call_ensures(
                    Self::primary_col,
                    (),
                    primary,
                ) && statement@ == selecting_one(table@, primary@, primary_key@),
    {
        let primary = Self::primary_col();
        let statement = Self::select_one(primary.as_str(), primary_key);
        proof {
            let table = choose|table: String| #[trigger]
                call_ensures(Self::table_name, (), table) && statement@ == selecting_one(
                    table@,
                    primary@,
                    primary_key@,
                );
            assert(call_ensures(Self::table_name, (), table) && call_ensures(
                Self::primary_col,
                (),
                primary,
            ) && statement@ == selecting_one(table@, primary@, primary_key@));
        }
        statement
    }

    /// Prepares the creation of this entity: an insert that leaves the
    /// primary key to the store.
    fn post_json(&self) -> (prepared: Result<Statement, Error>)
        ensures
            exists|table: String, columns: Result<ColumnValueMap, Error>, primary: String|
                #![trigger
                    call_ensures(Self::table_name, (), table),
                    call_ensures(Self::map_cols_to_vals, (self,), columns),
                    call_ensures(Self::primary_col, (), primary),
                ]
                call_ensures(Self::table_name, (), table) && call_ensures(
                    Self::map_cols_to_vals,
                    (self,),
                    columns,
                ) && call_ensures(Self::primary_col, (), primary) && outcome(prepared)
                    == inserting_extracted(table@, extraction(columns), seq![primary@]),
    {
        let primary = Self::primary_col();
        let mut skip: Vec<&str> = Vec::new();
        skip.push(primary.as_str());
        assert(slice_texts(skip@) =~= seq![primary@]);
        let prepared = self.insert(skip.as_slice());
        proof {
            let (table, columns) = choose|table: String, columns: Result<ColumnValueMap, Error>|
                #![trigger
                    call_ensures(Self::table_name, (), table),
                    call_ensures(Self::map_cols_to_vals, (self,), columns),
                ]
                call_ensures(Self::table_name, (), table) && call_ensures(
                    Self::map_cols_to_vals,
                    (self,),
                    columns,
                ) && outcome(prepared) == inserting_extracted(
                    table@,
                    extraction(columns),
                    seq![primary@],
                );
            assert(call_ensures(Self::table_name, (), table) && call_ensures(
                Self::map_cols_to_vals,
                (self,),
                columns,
            ) && call_ensures(Self::primary_col, (), primary) && outcome(prepared)
                == inserting_extracted(table@, extraction(columns), seq![primary@]));
        }
        prepared
    }

    /// Prepares the replacement of this entity: an upsert of all columns,
    /// with the primary key as the conflict column.
    fn put_json(&self) -> (prepared: Result<Statement, Error>)
        ensures
            exists|table: String, columns: Result<ColumnValueMap, Error>, primary: String|
                #![trigger
                    call_ensures(Self::table_name, (), table),
                    call_ensures(Self::map_cols_to_vals, (self,), columns),
                    call_ensures(Self::primary_col, (), primary),
                ]
                call_ensures(Self::table_name, (), table) && call_ensures(
                    Self::map_cols_to_vals,
                    (self,),
                    columns,
                ) && call_ensures(Self::primary_col, (), primary) && outcome(prepared)
                    == upserting_extracted(
                    table@,
                    extraction(columns),
                    Seq::<Seq<char>>::empty(),
                    primary@,
                ),
    {
        let primary = Self::primary_col();
        let skip: Vec<&str> = Vec::new();
        assert(slice_texts(skip@) =~= Seq::<Seq<char>>::empty());
        let prepared = self.upsert(skip.as_slice(), primary.as_str());
        proof {
            let (table, columns) = choose|table: String, columns: Result<ColumnValueMap, Error>|
                #![trigger
                    call_ensures(Self::table_name, (), table),
                    call_ensures(Self::map_cols_to_vals, (self,), columns),
                ]
                call_ensures(Self::table_name, (), table) && call_ensures(
                    Self::map_cols_to_vals,
                    (self,),
                    columns,
                ) && outcome(prepared) == upserting_extracted(
                    table@,
                    extraction(columns),
                    Seq::<Seq<char>>::empty(),
                    primary@,
                );
            assert(call_ensures(Self::table_name, (), table) && call_ensures(
                Self::map_cols_to_vals,
                (self,),
                columns,
            ) && call_ensures(Self::primary_col, (), primary) && outcome(prepared)
                == upserting_extracted(
                table@,
                extraction(columns),
                Seq::<Seq<char>>::empty(),
                primary@,
            ));
        }
        prepared
    }

    /// Prepares the removal of every entity with `val` in `col`.
    fn delete_json(col: &str, val: BasicType) -> (statement: Statement)
        ensures
            exists|table: String| #[trigger]
                call_ensures(Self::table_name, (), table) && statement@ == deleting(
                    table@,
                    col@,
                    val@,
                ),
    {
        Self::delete(col, val)
    }
}

} // verus!
