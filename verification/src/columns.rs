//! The stable mapping from a category to the column name of the underlying
//! engine, and the generation of the column-name list used when a store is
//! opened with a fixed number of categories.

use vstd::prelude::*;

use crate::database::DataCategory;

verus! {

/// The column name that backs a category. The mapping is total and must
/// never change once data exists under a name.
pub open spec fn spec_map_columns(category: DataCategory) -> Seq<char> {
    match category {
        DataCategory::State => "col0"@,
        DataCategory::Headers => "col1"@,
        DataCategory::Bodies => "col2"@,
        DataCategory::Extra => "col3"@,
        DataCategory::Trace => "col4"@,
        DataCategory::AccountBloom => "col5"@,
        DataCategory::Other => "col6"@,
    }
}

/// Maps a category to the engine column that stores its data.
pub fn map_columns(category: DataCategory) -> (r: &'static str)
    ensures
        r@ == spec_map_columns(category),
{
    match category {
        DataCategory::State => "col0",
        DataCategory::Headers => "col1",
        DataCategory::Bodies => "col2",
        DataCategory::Extra => "col3",
        DataCategory::Trace => "col4",
        DataCategory::AccountBloom => "col5",
        DataCategory::Other => "col6",
    }
}

/// The decimal digit character for `d`.
pub open spec fn spec_digit(d: nat) -> char {
    if d == 0 {
        '0'
    } else if d == 1 {
        '1'
    } else if d == 2 {
        '2'
    } else if d == 3 {
        '3'
    } else if d == 4 {
        '4'
    } else if d == 5 {
        '5'
    } else if d == 6 {
        '6'
    } else if d == 7 {
        '7'
    } else if d == 8 {
        '8'
    } else {
        '9'
    }
}

/// The decimal rendering of `n`, most significant digit first, with no
/// leading zero except for zero itself.
pub open spec fn spec_decimal(n: nat) -> Seq<char>
    decreases n,
{
    if n < 10 {
        seq![spec_digit(n)]
    } else {
        spec_decimal(n / 10) + seq![spec_digit(n % 10)]
    }
}

/// The name of the numbered column `i`: `col` followed by `i` in decimal.
pub open spec fn spec_column_name(i: nat) -> Seq<char> {
    "col"@ + spec_decimal(i)
}

fn digit_str(d: u32) -> (r: &'static str)
    requires
        d < 10,
    ensures
        r@ == seq![spec_digit(d as nat)],
{
    proof {
        reveal_strlit("0");
        reveal_strlit("1");
        reveal_strlit("2");
        reveal_strlit("3");
        reveal_strlit("4");
        reveal_strlit("5");
        reveal_strlit("6");
        reveal_strlit("7");
        reveal_strlit("8");
        reveal_strlit("9");
    }
    match d {
        0 => "0",
        1 => "1",
        2 => "2",
        3 => "3",
        4 => "4",
        5 => "5",
        6 => "6",
        7 => "7",
        8 => "8",
        _ => "9",
    }
}

fn push_decimal(s: &mut String, n: u32)
    ensures
        final(s)@ == old(s)@ + spec_decimal(n as nat),
    decreases n,
{
    if n >= 10 {
        push_decimal(s, n / 10);
    }
    s.append(digit_str(n % 10));
    proof {
        assert(s@ =~= old(s)@ + spec_decimal(n as nat));
    }
}

/// The name of the numbered column `i`.
pub fn column_name(i: u32) -> (r: String)
    ensures
        r@ == spec_column_name(i as nat),
{
    let mut s = String::from_str("col");
    push_decimal(&mut s, i);
    s
}

/// The column names `col0` to `col{num - 1}`, in order, that a store opened
/// with `num` categories pre-creates.
pub fn column_names(num: u32) -> (r: Vec<String>)
    ensures
        r@.len() == num,
        forall|j: int| 0 <= j < num ==> #[trigger] r@[j]@ == spec_column_name(j as nat),
{
    let mut names: Vec<String> = Vec::new();
    let mut i: u32 = 0;
    while i < num
        invariant
            i <= num,
            names@.len() == i,
            forall|j: int| 0 <= j < i ==> #[trigger] names@[j]@ == spec_column_name(j as nat),
        decreases num - i,
    {
        names.push(column_name(i));
        i = i + 1;
    }
    names
}

/// The fixed mapping agrees with the generated numbered names: the column of
/// each category is the numbered column of its position in the enumeration.
pub proof fn lemma_map_columns_numbered()
    ensures
        spec_map_columns(DataCategory::State) == spec_column_name(0),
        spec_map_columns(DataCategory::Headers) == spec_column_name(1),
        spec_map_columns(DataCategory::Bodies) == spec_column_name(2),
        spec_map_columns(DataCategory::Extra) == spec_column_name(3),
        spec_map_columns(DataCategory::Trace) == spec_column_name(4),
        spec_map_columns(DataCategory::AccountBloom) == spec_column_name(5),
        spec_map_columns(DataCategory::Other) == spec_column_name(6),
{
    reveal_strlit("col");
    reveal_strlit("col0");
    reveal_strlit("col1");
    reveal_strlit("col2");
    reveal_strlit("col3");
    reveal_strlit("col4");
    reveal_strlit("col5");
    reveal_strlit("col6");
    reveal_strlit("0");
    reveal_strlit("1");
    reveal_strlit("2");
    reveal_strlit("3");
    reveal_strlit("4");
    reveal_strlit("5");
    reveal_strlit("6");
    assert(spec_map_columns(DataCategory::State) =~= spec_column_name(0));
    assert(spec_map_columns(DataCategory::Headers) =~= spec_column_name(1));
    assert(spec_map_columns(DataCategory::Bodies) =~= spec_column_name(2));
    assert(spec_map_columns(DataCategory::Extra) =~= spec_column_name(3));
    assert(spec_map_columns(DataCategory::Trace) =~= spec_column_name(4));
    assert(spec_map_columns(DataCategory::AccountBloom) =~= spec_column_name(5));
    assert(spec_map_columns(DataCategory::Other) =~= spec_column_name(6));
}

} // verus!
