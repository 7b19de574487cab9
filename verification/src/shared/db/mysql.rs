//! From result sets to typed entities.
//!
//! A procedure answers with nothing, with at most one row, with exactly one
//! row, or with any number of rows. The functions here turn what came back,
//! rows or the driver's failure, into entities or a [`RepositoryError`].

use vstd::prelude::*;
use vstd::hash_map::StringHashMap;
use crate::shared::db::row::{
    ColumnIndexMap,
    ColumnView,
    MappingError,
    MappingErrorView,
    Row,
    outcome,
};

verus! {

/// The lower-case form of a text, as the standard library computes it.
pub uninterp spec fn lowercase(text: Seq<char>) -> Seq<char>;

/// Calls `str::to_lowercase`. The contract names the result: the same text
/// always gives the same lower-case form.
#[verifier::external_body]
fn to_lowercase(text: &str) -> (lower: String)
    ensures
        lower@ == lowercase(text@),
{
    text.to_lowercase()
}

/// The index of the first `n` columns of a row: each column's name in lower
/// case, so that a lookup does not depend on how the store spells column
/// names, with the column's position. Of two columns with one name the
/// later one is found.
pub open spec fn index_of_first(row: Seq<ColumnView>, n: nat) -> Map<Seq<char>, usize>
    decreases n,
{
    if n == 0 {
        Map::empty()
    } else {
        index_of_first(row, (n - 1) as nat).insert(
            lowercase(row[n - 1].name),
            (n - 1) as usize,
        )
    }
}

/// The column index of a row.
pub open spec fn column_index(row: Seq<ColumnView>) -> Map<Seq<char>, usize> {
    index_of_first(row, row.len())
}

/// What the index of the first `n` columns holds: exactly the names of
/// those columns, in lower case, each with the last position that carries
/// it.
pub proof fn lemma_index_of_first(row: Seq<ColumnView>, n: nat, name: Seq<char>)
    requires
        n <= row.len(),
        n <= usize::MAX,
    ensures
        index_of_first(row, n).contains_key(name) <==> exists|j: int|
            0 <= j < n && lowercase(#[trigger] row[j].name) == name,
        index_of_first(row, n).contains_key(name) ==> {
            let at = index_of_first(row, n)[name];
            &&& at < n
            &&& lowercase(row[at as int].name) == name
            &&& forall|j: int| at < j < n ==> lowercase(#[trigger] row[j].name) != name
        },
    decreases n,
{
    if n > 0 {
        lemma_index_of_first(row, (n - 1) as nat, name);
        if lowercase(row[n - 1].name) != name && index_of_first(row, n).contains_key(name) {
            let j = choose|j: int| 0 <= j < n - 1 && lowercase(#[trigger] row[j].name) == name;
            assert(0 <= j < n && lowercase(row[j].name) == name);
        }
    }
}

/// A column index finds a name exactly where a column of the row carries
/// it, whatever the case the store spells it in, and it finds the last such
/// column.
pub proof fn column_index_finds_the_last(row: Seq<ColumnView>, name: Seq<char>)
    requires
        row.len() <= usize::MAX,
    ensures
        column_index(row).contains_key(name) <==> exists|j: int|
            0 <= j < row.len() && lowercase(#[trigger] row[j].name) == name,
        column_index(row).contains_key(name) ==> {
            let at = column_index(row)[name];
            &&& at < row.len()
            &&& lowercase(row[at as int].name) == name
            &&& forall|j: int| at < j < row.len() ==> lowercase(#[trigger] row[j].name) != name
        },
{
    lemma_index_of_first(row, row.len(), name);
}

/// Builds the column index of `row`.
pub fn get_column_index_map(row: &Row) -> (index_map: ColumnIndexMap)
    ensures
        index_map@ == column_index(row@),
{
    let mut index_map: ColumnIndexMap = StringHashMap::new();
    let mut i: usize = 0;
    while i < row.columns.len()
        invariant
            i <= row.columns.len(),
            index_map@ == index_of_first(row@, i as nat),
        decreases row.columns.len() - i,
    {
        index_map.insert(to_lowercase(row.columns[i].name.as_str()), i);
        i += 1;
    }
    index_map
}

/// A type that can be read from a result row.
pub trait FromSqlRow: Sized + DeepView {
    /// The entity that `row` holds, read through `index`, or the first
    /// column that does not fit.
    spec fn row_model(row: Seq<ColumnView>, index: Map<Seq<char>, usize>) -> Result<
        <Self as DeepView>::V,
        MappingErrorView,
    >;

    /// Reads the entity from `row`, looking columns up through `index_map`.
    fn map_row_to_entity(row: &Row, index_map: &ColumnIndexMap) -> (r: Result<Self, MappingError>)
        ensures
            outcome(r) == Self::row_model(row@, index_map@),
    ;
}

/// Why a repository call gave no entity.
#[derive(Debug, Clone, PartialEq, Eq)]
pub enum RepositoryError {
    /// The store call failed; the text is the driver's own message.
    Persistence(String),
    /// A row came back that does not fit the entity.
    Mapping(MappingError),
}

/// What a [`RepositoryError`] stands for.
pub enum RepositoryErrorView {
    Persistence(Seq<char>),
    Mapping(MappingErrorView),
}

impl DeepView for RepositoryError {
    type V = RepositoryErrorView;

    open spec fn deep_view(&self) -> RepositoryErrorView {
        match *self {
            RepositoryError::Persistence(m) => RepositoryErrorView::Persistence(m@),
            RepositoryError::Mapping(e) => RepositoryErrorView::Mapping(e@),
        }
    }
}

impl View for RepositoryError {
    type V = RepositoryErrorView;

    open spec fn view(&self) -> RepositoryErrorView {
        self.deep_view()
    }
}

/// The entity of one row, read through the row's own column index.
pub open spec fn entity_of<T: FromSqlRow>(row: Seq<ColumnView>) -> Result<
    <T as DeepView>::V,
    RepositoryErrorView,
> {
    match T::row_model(row, column_index(row)) {
        Ok(entity) => Ok(entity),
        Err(e) => Err(RepositoryErrorView::Mapping(e)),
    }
}

/// What a zero-or-one-row answer stands for.
pub open spec fn optional_model<T: FromSqlRow>(answer: Result<Option<Seq<ColumnView>>, Seq<char>>)
    -> Result<Option<<T as DeepView>::V>, RepositoryErrorView> {
    match answer {
        Err(message) => Err(RepositoryErrorView::Persistence(message)),
        Ok(None) => Ok(None),
        Ok(Some(row)) => match entity_of::<T>(row) {
            Ok(entity) => Ok(Some(entity)),
            Err(e) => Err(e),
        },
    }
}

/// What an exactly-one-row answer stands for.
pub open spec fn one_model<T: FromSqlRow>(answer: Result<Seq<ColumnView>, Seq<char>>) -> Result<
    <T as DeepView>::V,
    RepositoryErrorView,
> {
    match answer {
        Err(message) => Err(RepositoryErrorView::Persistence(message)),
        Ok(row) => entity_of::<T>(row),
    }
}

/// The entities of the first `n` rows, each read through `index`, or the
/// failure of the first row that does not fit.
pub open spec fn rows_model<T: FromSqlRow>(
    rows: Seq<Seq<ColumnView>>,
    index: Map<Seq<char>, usize>,
    n: nat,
) -> Result<Seq<<T as DeepView>::V>, RepositoryErrorView>
    decreases n,
{
    if n == 0 {
        Ok(Seq::empty())
    } else {
        match rows_model::<T>(rows, index, (n - 1) as nat) {
            Err(e) => Err(e),
            Ok(entities) => match T::row_model(rows[n - 1], index) {
                Ok(entity) => Ok(entities.push(entity)),
                Err(e) => Err(RepositoryErrorView::Mapping(e)),
            },
        }
    }
}

/// What a many-rows answer stands for: every row is read with the column
/// index of the first row.
pub open spec fn list_model<T: FromSqlRow>(answer: Result<Seq<Seq<ColumnView>>, Seq<char>>)
    -> Result<Seq<<T as DeepView>::V>, RepositoryErrorView> {
    match answer {
        Err(message) => Err(RepositoryErrorView::Persistence(message)),
        Ok(rows) => if rows.len() == 0 {
            Ok(Seq::empty())
        } else {
            rows_model::<T>(rows, column_index(rows[0]), rows.len())
        },
    }
}

/// The parsing half of a repository: from what the store answered to
/// entities of type `T`.
pub trait GenericRepository<T: FromSqlRow> {
    /// Reads the answer of a call that yields at most one row. No row is not
    /// an error.
    fn parse_entity_from_option_result_sql(
        &self,
        entity_sql_result: Result<Option<Row>, String>,
    ) -> (r: Result<Option<T>, RepositoryError>)
        ensures
            outcome(r) == optional_model::<T>(outcome(entity_sql_result)),
    {
        match entity_sql_result {
            Ok(Some(entity_row)) => {
                let index_map = get_column_index_map(&entity_row);
                match T::map_row_to_entity(&entity_row, &index_map) {
                    Ok(entity) => Ok(Some(entity)),
                    Err(e) => Err(RepositoryError::Mapping(e)),
                }
            },
            Ok(None) => Ok(None),
            Err(message) => Err(RepositoryError::Persistence(message)),
        }
    }

    /// Reads the answer of a call that yields exactly one row.
    fn parse_entity_from_result_sql(&self, entity_sql_row: Result<Row, String>) -> (r: Result<
        T,
        RepositoryError,
    >)
        ensures
            outcome(r) == one_model::<T>(outcome(entity_sql_row)),
    {
        match entity_sql_row {
            Ok(entity_row) => {
                let index_map = get_column_index_map(&entity_row);
                match T::map_row_to_entity(&entity_row, &index_map) {
                    Ok(entity) => Ok(entity),
                    Err(e) => Err(RepositoryError::Mapping(e)),
                }
            },
            Err(message) => Err(RepositoryError::Persistence(message)),
        }
    }

    /// Reads the answer of a call that yields any number of rows, in the
    /// order the store sent them. No rows give an empty list.
    fn parse_entity_from_result_sql_list(&self, result_sql_rows: Result<Vec<Row>, String>) -> (r:
        Result<Vec<T>, RepositoryError>)
        ensures
            outcome(r) == list_model::<T>(outcome(result_sql_rows)),
    {
        let ghost answer = outcome(result_sql_rows);
        match result_sql_rows {
            Ok(entity_rows) => {
                if entity_rows.len() == 0 {
                    let empty: Vec<T> = Vec::new();
                    assert(empty.deep_view() =~= Seq::empty());
                    assert(entity_rows.deep_view() =~= Seq::empty());
                    return Ok(empty);
                }
                let index_map = get_column_index_map(&entity_rows[0]);
                let mut entities: Vec<T> = Vec::with_capacity(entity_rows.len());
                let mut i: usize = 0;
                assert(entities.deep_view() =~= Seq::empty());
                while i < entity_rows.len()
                    invariant
                        i <= entity_rows.len(),
                        entity_rows.len() > 0,
                        answer == outcome(result_sql_rows),
                        answer == Ok::<Seq<Seq<ColumnView>>, Seq<char>>(entity_rows.deep_view()),
                        index_map@ == column_index(entity_rows[0]@),
                        rows_model::<T>(entity_rows.deep_view(), index_map@, i as nat) == Ok::<
                            Seq<<T as DeepView>::V>,
                            RepositoryErrorView,
                        >(entities.deep_view()),
                    decreases entity_rows.len() - i,
                {
                    match T::map_row_to_entity(&entity_rows[i], &index_map) {
                        Ok(entity) => {
                            assert(entity_rows.deep_view()[i as int] == entity_rows[i as int]@);
                            let ghost before = entities.deep_view();
                            let ghost model = entity.deep_view();
                            entities.push(entity);
                            assert(entities.deep_view() =~= before.push(model));
                        },
                        Err(e) => {
                            proof {
                                assert(entity_rows.deep_view()[i as int] == entity_rows[i as int]@);
                                assert(rows_model::<T>(
                                    entity_rows.deep_view(),
                                    index_map@,
                                    (i + 1) as nat,
                                ) == Err::<Seq<<T as DeepView>::V>, RepositoryErrorView>(
                                    RepositoryErrorView::Mapping(e@),
                                ));
                                assert(entity_rows.deep_view()[0] == entity_rows[0]@);
                                lemma_rows_model_fails::<T>(
                                    entity_rows.deep_view(),
                                    index_map@,
                                    (i + 1) as nat,
                                    entity_rows.len() as nat,
                                );
                            }
                            return Err(RepositoryError::Mapping(e));
                        },
                    }
                    i += 1;
                }
                assert(entity_rows.deep_view()[0] == entity_rows[0]@);
                Ok(entities)
            },
            Err(message) => Err(RepositoryError::Persistence(message)),
        }
    }
}

/// Once a prefix of the rows fails, every longer prefix fails in the same
/// way.
pub proof fn lemma_rows_model_fails<T: FromSqlRow>(
    rows: Seq<Seq<ColumnView>>,
    index: Map<Seq<char>, usize>,
    n: nat,
    m: nat,
)
    requires
        n <= m,
        rows_model::<T>(rows, index, n) is Err,
    ensures
        rows_model::<T>(rows, index, m) == rows_model::<T>(rows, index, n),
    decreases m,
{
    if n < m {
        lemma_rows_model_fails::<T>(rows, index, n, (m - 1) as nat);
    }
}

} // verus!
