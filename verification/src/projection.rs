//! The result projector: converts each raw backend row into an ordered
//! mapping from column name to a transport-safe value. A value that is
//! present and readable as text stays text; a null stays an explicit null;
//! a value that cannot be coerced degrades to null instead of failing the
//! row or the result set. The projector as a whole never fails.

use vstd::prelude::*;

verus! {

/// What the backend reported for one cell, as the driver hands it out:
/// readable text, an explicit null, or a value that would not coerce.
#[derive(Debug, Clone, PartialEq)]
pub enum RawValue {
    Text(String),
    Null,
    Uncoercible,
}

/// The mathematical value of a `RawValue`.
pub enum RawValueModel {
    Text(Seq<char>),
    Null,
    Uncoercible,
}

impl View for RawValue {
    type V = RawValueModel;

    open spec fn view(&self) -> RawValueModel {
        match self {
            RawValue::Text(s) => RawValueModel::Text(s@),
            RawValue::Null => RawValueModel::Null,
            RawValue::Uncoercible => RawValueModel::Uncoercible,
        }
    }
}

/// One cell of a raw backend row: the reported column name and its value.
#[derive(Debug, Clone, PartialEq)]
pub struct RawColumn {
    pub name: String,
    pub value: RawValue,
}

/// The mathematical value of a `RawColumn`.
pub struct RawColumnModel {
    pub name: Seq<char>,
    pub value: RawValueModel,
}

impl View for RawColumn {
    type V = RawColumnModel;

    open spec fn view(&self) -> RawColumnModel {
        RawColumnModel { name: self.name@, value: self.value@ }
    }
}

/// One raw backend row: its cells in the backend-reported column order.
#[derive(Debug, Clone, PartialEq)]
pub struct RawRow {
    pub columns: Vec<RawColumn>,
}

impl View for RawRow {
    type V = Seq<RawColumnModel>;

    open spec fn view(&self) -> Seq<RawColumnModel> {
        self.columns@.map_values(|c: RawColumn| c@)
    }
}

/// A transport-safe value: a string or an explicit null, never absent.
#[derive(Debug, Clone, PartialEq)]
pub enum FieldValue {
    Text(String),
    Null,
}

/// The mathematical value of a `FieldValue`.
pub enum FieldValueModel {
    Text(Seq<char>),
    Null,
}

impl View for FieldValue {
    type V = FieldValueModel;

    open spec fn view(&self) -> FieldValueModel {
        match self {
            FieldValue::Text(s) => FieldValueModel::Text(s@),
            FieldValue::Null => FieldValueModel::Null,
        }
    }
}

/// One entry of a projected row: a column name and its transport-safe value.
#[derive(Debug, Clone, PartialEq)]
pub struct Field {
    pub name: String,
    pub value: FieldValue,
}

/// The mathematical value of a `Field`.
pub struct FieldModel {
    pub name: Seq<char>,
    pub value: FieldValueModel,
}

impl View for Field {
    type V = FieldModel;

    open spec fn view(&self) -> FieldModel {
        FieldModel { name: self.name@, value: self.value@ }
    }
}

/// One projected row: an ordered mapping from column name to value, with one
/// entry per backend column. Name collisions within a row are kept as the
/// backend reported them; the backend, not this component, owns uniqueness.
#[derive(Debug, Clone, PartialEq)]
pub struct ProjectedRow {
    pub fields: Vec<Field>,
}

impl View for ProjectedRow {
    type V = Seq<FieldModel>;

    open spec fn view(&self) -> Seq<FieldModel> {
        self.fields@.map_values(|f: Field| f@)
    }
}

/// The coercion policy for one cell: readable text stays text; a null and a
/// value that would not coerce both become an explicit null.
pub open spec fn coerced(v: RawValueModel) -> FieldValueModel {
    match v {
        RawValueModel::Text(s) => FieldValueModel::Text(s),
        RawValueModel::Null => FieldValueModel::Null,
        RawValueModel::Uncoercible => FieldValueModel::Null,
    }
}

/// The projection of one cell: the name is kept, the value is coerced.
pub open spec fn projected_column(c: RawColumnModel) -> FieldModel {
    FieldModel { name: c.name, value: coerced(c.value) }
}

/// The projection of one row: every cell, in the backend-reported order.
pub open spec fn projected_row(r: Seq<RawColumnModel>) -> Seq<FieldModel> {
    r.map_values(|c: RawColumnModel| projected_column(c))
}

/// The projection of a whole result set: every row, in order.
pub open spec fn projected_rows(rs: Seq<Seq<RawColumnModel>>) -> Seq<Seq<FieldModel>> {
    rs.map_values(|r: Seq<RawColumnModel>| projected_row(r))
}

/// The mathematical value of a sequence of raw rows.
pub open spec fn rows_model(rows: Seq<RawRow>) -> Seq<Seq<RawColumnModel>> {
    rows.map_values(|r: RawRow| r@)
}

/// The mathematical value of a sequence of projected rows.
pub open spec fn projected_model(rows: Seq<ProjectedRow>) -> Seq<Seq<FieldModel>> {
    rows.map_values(|r: ProjectedRow| r@)
}

/// Coerce one cell value to its transport-safe form.
pub fn coerce(v: &RawValue) -> (r: FieldValue)
    ensures
        r@ == coerced(v@),
{
    match v {
        RawValue::Text(s) => FieldValue::Text(s.clone()),
        RawValue::Null => FieldValue::Null,
        RawValue::Uncoercible => FieldValue::Null,
    }
}

/// Project one raw row into its ordered name-to-value mapping. Never fails:
/// a cell that cannot be coerced degrades to an explicit null and every
/// other cell of the row is kept.
pub fn project_row(row: &RawRow) -> (p: ProjectedRow)
    ensures
        p@ == projected_row(row@),
{
    let n = row.columns.len();
    let mut fields: Vec<Field> = Vec::new();
    let mut i: usize = 0;
    while i < n
        invariant
            i <= n,
            n == row.columns@.len(),
            fields@.len() == i,
            forall|j: int| 0 <= j < i ==> fields@[j]@ == projected_column(row@[j]),
        decreases n - i,
    {
        let c = &row.columns[i];
        let value = coerce(&c.value);
        fields.push(Field { name: c.name.clone(), value });
        i += 1;
    }
    let p = ProjectedRow { fields };
    proof {
        assert(p@ =~= projected_row(row@));
    }
    p
}

/// Project a whole result set, row by row, in order.
pub fn project_rows(rows: &Vec<RawRow>) -> (p: Vec<ProjectedRow>)
    ensures
        projected_model(p@) == projected_rows(rows_model(rows@)),
{
    let n = rows.len();
    let mut out: Vec<ProjectedRow> = Vec::new();
    let mut i: usize = 0;
    while i < n
        invariant
            i <= n,
            n == rows@.len(),
            out@.len() == i,
            forall|j: int| 0 <= j < i ==> out@[j]@ == projected_row(rows@[j]@),
        decreases n - i,
    {
        let p = project_row(&rows[i]);
        out.push(p);
        i += 1;
    }
    proof {
        assert(projected_model(out@) =~= projected_rows(rows_model(rows@)));
    }
    out
}

/// A row of N columns projects to a mapping of exactly N entries, each entry
/// keeping its column's name and holding either a string or an explicit
/// null — never an absent value.
pub proof fn lemma_projection_preserves_arity(r: Seq<RawColumnModel>)
    ensures
        projected_row(r).len() == r.len(),
        forall|i: int| 0 <= i < r.len() ==> projected_row(r)[i].name == r[i].name,
        forall|i: int|
            0 <= i < r.len() ==> (projected_row(r)[i].value is Text || projected_row(
                r,
            )[i].value is Null),
{
}

/// Degradation is local: a cell that cannot be coerced still yields an entry
/// for its column, as an explicit null, and every other row of the result
/// set is still projected unchanged.
pub proof fn lemma_degradation_is_local(rs: Seq<Seq<RawColumnModel>>, i: int, j: int)
    requires
        0 <= i < rs.len(),
        0 <= j < rs[i].len(),
        rs[i][j].value is Uncoercible,
    ensures
        projected_rows(rs).len() == rs.len(),
        projected_rows(rs)[i][j] == (FieldModel { name: rs[i][j].name, value: FieldValueModel::Null }),
        forall|k: int| 0 <= k < rs.len() ==> projected_rows(rs)[k] == projected_row(rs[k]),
{
}

} // verus!
