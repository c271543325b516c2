//! Counter matrices: pool identifier to category label to count.

use vstd::prelude::*;
use crate::configuration::{display_name, pool_in_scope, resolve_name};
use crate::data::DesktopPool;

verus! {

/// One bucket of a pool: a category label and the number of entities counted in it.
struct CategoryCount {
    category: String,
    count: i64,
}

/// The buckets of one pool.
struct PoolCounts {
    pool: String,
    counts: Vec<CategoryCount>,
}

/// A category label occurs in `cells`.
spec fn has_category(cells: Seq<CategoryCount>, category: Seq<char>) -> bool {
    exists|i: int| 0 <= i < cells.len() && #[trigger] cells[i].category@ == category
}

/// Some position at which `category` stands in `cells`.
spec fn category_index(cells: Seq<CategoryCount>, category: Seq<char>) -> int {
    choose|i: int| 0 <= i < cells.len() && #[trigger] cells[i].category@ == category
}

/// No category label stands twice in `cells`.
spec fn categories_distinct(cells: Seq<CategoryCount>) -> bool {
    forall|i: int, j: int|
        0 <= i < j < cells.len() ==> #[trigger] cells[i].category@ != #[trigger] cells[j].category@
}

/// The buckets of one pool as a map from category label to count.
spec fn counts_map(cells: Seq<CategoryCount>) -> Map<Seq<char>, int> {
    Map::new(
        |category: Seq<char>| has_category(cells, category),
        |category: Seq<char>| cells[category_index(cells, category)].count as int,
    )
}

/// A pool identifier occurs in `rows`.
spec fn has_pool(rows: Seq<PoolCounts>, pool: Seq<char>) -> bool {
    exists|i: int| 0 <= i < rows.len() && #[trigger] rows[i].pool@ == pool
}

/// Some position at which `pool` stands in `rows`.
spec fn pool_index(rows: Seq<PoolCounts>, pool: Seq<char>) -> int {
    choose|i: int| 0 <= i < rows.len() && #[trigger] rows[i].pool@ == pool
}

/// No count in `cells` is negative.
spec fn counts_nonnegative(cells: Seq<CategoryCount>) -> bool {
    forall|i: int| 0 <= i < cells.len() ==> (#[trigger] cells[i]).count >= 0
}

/// No pool stands twice in `rows`, no category twice within a pool, and no
/// count is negative.
spec fn rows_wf(rows: Seq<PoolCounts>) -> bool {
    &&& forall|i: int, j: int|
        0 <= i < j < rows.len() ==> #[trigger] rows[i].pool@ != #[trigger] rows[j].pool@
    &&& forall|i: int| 0 <= i < rows.len() ==> categories_distinct(#[trigger] rows[i].counts@)
    &&& forall|i: int| 0 <= i < rows.len() ==> counts_nonnegative(#[trigger] rows[i].counts@)
}

/// The rows as a map from pool identifier to that pool's buckets.
spec fn rows_map(rows: Seq<PoolCounts>) -> Map<Seq<char>, Map<Seq<char>, int>> {
    Map::new(
        |pool: Seq<char>| has_pool(rows, pool),
        |pool: Seq<char>| counts_map(rows[pool_index(rows, pool)].counts@),
    )
}

proof fn lemma_counts_at(cells: Seq<CategoryCount>, i: int)
    requires
        categories_distinct(cells),
        0 <= i < cells.len(),
    ensures
        has_category(cells, cells[i].category@),
        category_index(cells, cells[i].category@) == i,
        counts_map(cells).dom().contains(cells[i].category@),
        counts_map(cells)[cells[i].category@] == cells[i].count,
{
    let k = cells[i].category@;
    let j = category_index(cells, k);
    assert(0 <= j < cells.len() && cells[j].category@ == k);
    if j < i {
        assert(cells[j].category@ != cells[i].category@);
    } else if i < j {
        assert(cells[i].category@ != cells[j].category@);
    }
}

proof fn lemma_rows_at(rows: Seq<PoolCounts>, i: int)
    requires
        rows_wf(rows),
        0 <= i < rows.len(),
    ensures
        has_pool(rows, rows[i].pool@),
        pool_index(rows, rows[i].pool@) == i,
        rows_map(rows).dom().contains(rows[i].pool@),
        rows_map(rows)[rows[i].pool@] == counts_map(rows[i].counts@),
{
    let k = rows[i].pool@;
    let j = pool_index(rows, k);
    assert(0 <= j < rows.len() && rows[j].pool@ == k);
    if j < i {
        assert(rows[j].pool@ != rows[i].pool@);
    } else if i < j {
        assert(rows[i].pool@ != rows[j].pool@);
    }
}

proof fn lemma_counts_push(cells: Seq<CategoryCount>, cell: CategoryCount)
    requires
        categories_distinct(cells),
        !has_category(cells, cell.category@),
    ensures
        categories_distinct(cells.push(cell)),
        counts_map(cells.push(cell)) == counts_map(cells).insert(
            cell.category@,
            cell.count as int,
        ),
{
    let after = cells.push(cell);
    assert forall|i: int, j: int| 0 <= i < j < after.len() implies #[trigger] after[i].category@
        != #[trigger] after[j].category@ by {
        if j == cells.len() {
            assert(cells[i].category@ != cell.category@);
        } else {
            assert(cells[i].category@ != cells[j].category@);
        }
    }
    let target = counts_map(cells).insert(cell.category@, cell.count as int);
    assert forall|k: Seq<char>| counts_map(after).dom().contains(k) implies #[trigger] target.dom().contains(k)
        && counts_map(after)[k] == target[k] by {
        let i = category_index(after, k);
        assert(0 <= i < after.len() && after[i].category@ == k);
        lemma_counts_at(after, i);
        if i < cells.len() {
            assert(cells[i].category@ == k);
            lemma_counts_at(cells, i);
        }
    }
    assert forall|k: Seq<char>| target.dom().contains(k) implies #[trigger] counts_map(after).dom().contains(k) by {
        if k == cell.category@ {
            assert(after[cells.len() as int].category@ == k);
        } else {
            let i = category_index(cells, k);
            assert(0 <= i < cells.len() && cells[i].category@ == k);
            assert(after[i].category@ == k);
        }
    }
    assert(counts_map(after) =~= target);
}

proof fn lemma_counts_set(before: Seq<CategoryCount>, after: Seq<CategoryCount>, j: int)
    requires
        categories_distinct(before),
        0 <= j < before.len(),
        after.len() == before.len(),
        forall|i: int| 0 <= i < before.len() ==> #[trigger] after[i].category@ == before[i].category@,
        forall|i: int| 0 <= i < before.len() && i != j ==> #[trigger] after[i].count == before[i].count,
    ensures
        categories_distinct(after),
        counts_map(after) == counts_map(before).insert(before[j].category@, after[j].count as int),
{
    assert forall|a: int, b: int| 0 <= a < b < after.len() implies #[trigger] after[a].category@
        != #[trigger] after[b].category@ by {
        assert(before[a].category@ != before[b].category@);
    }
    let target = counts_map(before).insert(before[j].category@, after[j].count as int);
    assert forall|k: Seq<char>| counts_map(after).dom().contains(k) implies #[trigger] target.dom().contains(k)
        && counts_map(after)[k] == target[k] by {
        let i = category_index(after, k);
        assert(0 <= i < after.len() && after[i].category@ == k);
        lemma_counts_at(after, i);
        assert(before[i].category@ == k);
        lemma_counts_at(before, i);
        lemma_counts_at(before, j);
    }
    assert forall|k: Seq<char>| target.dom().contains(k) implies #[trigger] counts_map(after).dom().contains(k) by {
        if k == before[j].category@ {
            assert(after[j].category@ == k);
        } else {
            let i = category_index(before, k);
            assert(0 <= i < before.len() && before[i].category@ == k);
            assert(after[i].category@ == k);
        }
    }
    assert(counts_map(after) =~= target);
}

proof fn lemma_rows_push(rows: Seq<PoolCounts>, row: PoolCounts)
    requires
        rows_wf(rows),
        !has_pool(rows, row.pool@),
        categories_distinct(row.counts@),
        counts_nonnegative(row.counts@),
    ensures
        rows_wf(rows.push(row)),
        rows_map(rows.push(row)) == rows_map(rows).insert(row.pool@, counts_map(row.counts@)),
{
    let after = rows.push(row);
    assert forall|i: int, j: int| 0 <= i < j < after.len() implies #[trigger] after[i].pool@
        != #[trigger] after[j].pool@ by {
        if j == rows.len() {
            assert(rows[i].pool@ != row.pool@);
        } else {
            assert(rows[i].pool@ != rows[j].pool@);
        }
    }
    assert forall|i: int| 0 <= i < after.len() implies categories_distinct(
        #[trigger] after[i].counts@,
    ) && counts_nonnegative(after[i].counts@) by {
        if i < rows.len() {
            assert(categories_distinct(rows[i].counts@));
            assert(counts_nonnegative(rows[i].counts@));
        }
    }
    let target = rows_map(rows).insert(row.pool@, counts_map(row.counts@));
    assert forall|k: Seq<char>| rows_map(after).dom().contains(k) implies #[trigger] target.dom().contains(k)
        && rows_map(after)[k] == target[k] by {
        let i = pool_index(after, k);
        assert(0 <= i < after.len() && after[i].pool@ == k);
        lemma_rows_at(after, i);
        if i < rows.len() {
            assert(rows[i].pool@ == k);
            lemma_rows_at(rows, i);
        }
    }
    assert forall|k: Seq<char>| target.dom().contains(k) implies #[trigger] rows_map(after).dom().contains(k) by {
        if k == row.pool@ {
            assert(after[rows.len() as int].pool@ == k);
        } else {
            let i = pool_index(rows, k);
            assert(0 <= i < rows.len() && rows[i].pool@ == k);
            assert(after[i].pool@ == k);
        }
    }
    assert(rows_map(after) =~= target);
}

proof fn lemma_rows_set(before: Seq<PoolCounts>, after: Seq<PoolCounts>, j: int)
    requires
        rows_wf(before),
        0 <= j < before.len(),
        after.len() == before.len(),
        forall|i: int| 0 <= i < before.len() ==> #[trigger] after[i].pool@ == before[i].pool@,
        forall|i: int| 0 <= i < before.len() && i != j ==> #[trigger] after[i].counts@ == before[i].counts@,
        categories_distinct(after[j].counts@),
        counts_nonnegative(after[j].counts@),
    ensures
        rows_wf(after),
        rows_map(after) == rows_map(before).insert(before[j].pool@, counts_map(after[j].counts@)),
{
    assert forall|a: int, b: int| 0 <= a < b < after.len() implies #[trigger] after[a].pool@
        != #[trigger] after[b].pool@ by {
        assert(before[a].pool@ != before[b].pool@);
    }
    assert forall|i: int| 0 <= i < after.len() implies categories_distinct(
        #[trigger] after[i].counts@,
    ) && counts_nonnegative(after[i].counts@) by {
        if i != j {
            assert(categories_distinct(before[i].counts@));
            assert(counts_nonnegative(before[i].counts@));
        }
    }
    let target = rows_map(before).insert(before[j].pool@, counts_map(after[j].counts@));
    assert forall|k: Seq<char>| rows_map(after).dom().contains(k) implies #[trigger] target.dom().contains(k)
        && rows_map(after)[k] == target[k] by {
        let i = pool_index(after, k);
        assert(0 <= i < after.len() && after[i].pool@ == k);
        lemma_rows_at(after, i);
        assert(before[i].pool@ == k);
        lemma_rows_at(before, i);
        lemma_rows_at(before, j);
    }
    assert forall|k: Seq<char>| target.dom().contains(k) implies #[trigger] rows_map(after).dom().contains(k) by {
        if k == before[j].pool@ {
            assert(after[j].pool@ == k);
        } else {
            let i = pool_index(before, k);
            assert(0 <= i < before.len() && before[i].pool@ == k);
            assert(after[i].pool@ == k);
        }
    }
    assert(rows_map(after) =~= target);
}

/// The buckets of `pool` in `m`; none where the pool is not known.
pub open spec fn row_of(m: Map<Seq<char>, Map<Seq<char>, int>>, pool: Seq<char>) -> Map<
    Seq<char>,
    int,
> {
    if m.dom().contains(pool) {
        m[pool]
    } else {
        Map::empty()
    }
}

/// The count of `category` in `pool`; zero where there is no such bucket.
pub open spec fn count_of(
    m: Map<Seq<char>, Map<Seq<char>, int>>,
    pool: Seq<char>,
    category: Seq<char>,
) -> int {
    if row_of(m, pool).dom().contains(category) {
        row_of(m, pool)[category]
    } else {
        0
    }
}

/// `m` after one more entity was counted under `category` in `pool`.
pub open spec fn incremented(
    m: Map<Seq<char>, Map<Seq<char>, int>>,
    pool: Seq<char>,
    category: Seq<char>,
) -> Map<Seq<char>, Map<Seq<char>, int>> {
    m.insert(pool, row_of(m, pool).insert(category, count_of(m, pool, category) + 1))
}

/// `m` with the same pools and categories, every count zero.
pub open spec fn flushed(m: Map<Seq<char>, Map<Seq<char>, int>>) -> Map<
    Seq<char>,
    Map<Seq<char>, int>,
> {
    Map::new(
        |pool: Seq<char>| m.dom().contains(pool),
        |pool: Seq<char>|
            Map::new(|category: Seq<char>| m[pool].dom().contains(category), |category: Seq<char>| 0int),
    )
}

/// Every count in `m` is zero.
pub open spec fn all_zero(m: Map<Seq<char>, Map<Seq<char>, int>>) -> bool {
    forall|pool: Seq<char>, category: Seq<char>|
        m.dom().contains(pool) && #[trigger] m[pool].dom().contains(category) ==> m[pool][category]
            == 0
}

/// No count in `m` is negative.
pub open spec fn not_negative(m: Map<Seq<char>, Map<Seq<char>, int>>) -> bool {
    forall|pool: Seq<char>, category: Seq<char>|
        m.dom().contains(pool) && #[trigger] m[pool].dom().contains(category) ==> 0
            <= m[pool][category]
}

/// Every count in `m` lies between zero and `bound`.
pub open spec fn bounded(m: Map<Seq<char>, Map<Seq<char>, int>>, bound: int) -> bool {
    forall|pool: Seq<char>, category: Seq<char>|
        m.dom().contains(pool) && #[trigger] m[pool].dom().contains(category) ==> 0
            <= m[pool][category] <= bound
}

/// The labels that `names` lists.
pub open spec fn label_set(names: Seq<&'static str>) -> Set<Seq<char>> {
    Set::new(|label: Seq<char>| exists|i: int| 0 <= i < names.len() && #[trigger] names[i]@ == label)
}

/// One bucket at zero for each of `categories`.
pub open spec fn zero_counts(categories: Set<Seq<char>>) -> Map<Seq<char>, int> {
    Map::new(|category: Seq<char>| categories.contains(category), |category: Seq<char>| 0int)
}

/// `m` after `pool` was seeded: a pool that is known keeps its buckets as they
/// are, a new one gets one bucket at zero for each of `categories`.
pub open spec fn seeded(
    m: Map<Seq<char>, Map<Seq<char>, int>>,
    pool: Seq<char>,
    categories: Set<Seq<char>>,
) -> Map<Seq<char>, Map<Seq<char>, int>> {
    if m.dom().contains(pool) {
        m
    } else {
        m.insert(pool, zero_counts(categories))
    }
}

pub proof fn lemma_label_set_step(names: Seq<&'static str>, k: int)
    requires
        0 <= k < names.len(),
    ensures
        label_set(names.take(k + 1)) == label_set(names.take(k)).insert(names[k]@),
{
    let wider = names.take(k + 1);
    let narrow = names.take(k);
    let target = label_set(narrow).insert(names[k]@);
    assert forall|label: Seq<char>| label_set(wider).contains(label) implies #[trigger] target.contains(label) by {
        let i = choose|i: int| 0 <= i < wider.len() && #[trigger] wider[i]@ == label;
        if i < k {
            assert(narrow[i]@ == label);
        }
    }
    assert forall|label: Seq<char>| target.contains(label) implies #[trigger] label_set(wider).contains(label) by {
        if label == names[k]@ {
            assert(wider[k]@ == label);
        } else {
            let i = choose|i: int| 0 <= i < narrow.len() && #[trigger] narrow[i]@ == label;
            assert(wider[i]@ == label);
        }
    }
    assert(label_set(wider) =~= target);
}

proof fn lemma_counts_zeroed(before: Seq<CategoryCount>, after: Seq<CategoryCount>)
    requires
        categories_distinct(before),
        after.len() == before.len(),
        forall|i: int| 0 <= i < before.len() ==> #[trigger] after[i].category@ == before[i].category@,
        forall|i: int| 0 <= i < before.len() ==> #[trigger] after[i].count == 0,
    ensures
        categories_distinct(after),
        counts_map(after) == zero_counts(counts_map(before).dom()),
{
    assert forall|a: int, b: int| 0 <= a < b < after.len() implies #[trigger] after[a].category@
        != #[trigger] after[b].category@ by {
        assert(before[a].category@ != before[b].category@);
    }
    let target = zero_counts(counts_map(before).dom());
    assert forall|k: Seq<char>| counts_map(after).dom().contains(k) implies #[trigger] target.dom().contains(k)
        && counts_map(after)[k] == target[k] by {
        let i = category_index(after, k);
        assert(0 <= i < after.len() && after[i].category@ == k);
        lemma_counts_at(after, i);
        assert(before[i].category@ == k);
    }
    assert forall|k: Seq<char>| target.dom().contains(k) implies #[trigger] counts_map(after).dom().contains(k) by {
        let i = category_index(before, k);
        assert(0 <= i < before.len() && before[i].category@ == k);
        assert(after[i].category@ == k);
    }
    assert(counts_map(after) =~= target);
}

proof fn lemma_rows_zeroed(before: Seq<PoolCounts>, after: Seq<PoolCounts>)
    requires
        rows_wf(before),
        after.len() == before.len(),
        forall|i: int| 0 <= i < before.len() ==> #[trigger] after[i].pool@ == before[i].pool@,
        forall|i: int|
            0 <= i < before.len() ==> (#[trigger] after[i]).counts@.len() == before[i].counts@.len(),
        forall|i: int, j: int|
            0 <= i < before.len() && 0 <= j < before[i].counts@.len() ==> (
            #[trigger] after[i].counts@[j]).category@ == before[i].counts@[j].category@
                && after[i].counts@[j].count == 0,
    ensures
        rows_wf(after),
        rows_map(after) == flushed(rows_map(before)),
{
    assert forall|a: int, b: int| 0 <= a < b < after.len() implies #[trigger] after[a].pool@
        != #[trigger] after[b].pool@ by {
        assert(before[a].pool@ != before[b].pool@);
    }
    assert forall|i: int| 0 <= i < after.len() implies categories_distinct(
        #[trigger] after[i].counts@,
    ) && counts_nonnegative(after[i].counts@) by {
        assert(categories_distinct(before[i].counts@));
        assert(after[i].counts@.len() == before[i].counts@.len());
        lemma_counts_zeroed(before[i].counts@, after[i].counts@);
        assert forall|c: int| 0 <= c < after[i].counts@.len() implies (
        #[trigger] after[i].counts@[c]).count >= 0 by {}
    }
    let target = flushed(rows_map(before));
    assert forall|k: Seq<char>| rows_map(after).dom().contains(k) implies #[trigger] target.dom().contains(k)
        && rows_map(after)[k] =~= target[k] by {
        let i = pool_index(after, k);
        assert(0 <= i < after.len() && after[i].pool@ == k);
        lemma_rows_at(after, i);
        assert(before[i].pool@ == k);
        lemma_rows_at(before, i);
        assert(categories_distinct(before[i].counts@));
        assert(after[i].counts@.len() == before[i].counts@.len());
        lemma_counts_zeroed(before[i].counts@, after[i].counts@);
    }
    assert forall|k: Seq<char>| target.dom().contains(k) implies #[trigger] rows_map(after).dom().contains(k) by {
        let i = pool_index(before, k);
        assert(0 <= i < before.len() && before[i].pool@ == k);
        assert(after[i].pool@ == k);
    }
    assert(rows_map(after) =~= target);
}

/// One count as it is handed to the metric sink: the pool it was counted for,
/// the name under which that pool is shown, the category and the count.
#[derive(Clone, Debug)]
pub struct Sample {
    pub pool: String,
    pub label: String,
    pub category: String,
    pub count: i64,
}

/// `out` holds every bucket of `m` once, each with its count and with the
/// display name that `names` gives its pool, and nothing else.
pub open spec fn published(
    m: Map<Seq<char>, Map<Seq<char>, int>>,
    names: Option<Vec<(String, String)>>,
    out: Seq<Sample>,
) -> bool {
    &&& forall|n: int|
        0 <= n < out.len() ==> {
            &&& m.dom().contains((#[trigger] out[n]).pool@)
            &&& m[out[n].pool@].dom().contains(out[n].category@)
            &&& m[out[n].pool@][out[n].category@] == out[n].count
            &&& out[n].label@ == display_name(names, out[n].pool@)
        }
    &&& forall|pool: Seq<char>, category: Seq<char>|
        m.dom().contains(pool) && #[trigger] m[pool].dom().contains(category) ==> exists|n: int|
            0 <= n < out.len() && (#[trigger] out[n]).pool@ == pool && out[n].category@ == category
    &&& forall|a: int, b: int|
        0 <= a < b < out.len() ==> !((#[trigger] out[a]).pool@ == (#[trigger] out[b]).pool@
            && out[a].category@ == out[b].category@)
}

/// The bucket at `cell` of the row at `row` has been handed out.
spec fn emitted(source: Seq<(int, int)>, row: int, cell: int) -> bool {
    exists|n: int| 0 <= n < source.len() && #[trigger] source[n] == (row, cell)
}

/// `sample` is the bucket at `cell` of the row at `row`, under the display name of its pool.
spec fn sample_of(
    rows: Seq<PoolCounts>,
    names: Option<Vec<(String, String)>>,
    row: int,
    cell: int,
    sample: Sample,
) -> bool {
    &&& 0 <= row < rows.len()
    &&& 0 <= cell < rows[row].counts@.len()
    &&& sample.pool@ == rows[row].pool@
    &&& sample.label@ == display_name(names, rows[row].pool@)
    &&& sample.category@ == rows[row].counts@[cell].category@
    &&& sample.count == rows[row].counts@[cell].count
}

/// `out` holds the buckets of the rows before `row`, and of the row at `row`
/// those before `cell`, each once; `source` says where each came from.
spec fn emitted_up_to(
    rows: Seq<PoolCounts>,
    names: Option<Vec<(String, String)>>,
    out: Seq<Sample>,
    source: Seq<(int, int)>,
    row: int,
    cell: int,
) -> bool {
    &&& source.len() == out.len()
    &&& forall|n: int|
        0 <= n < out.len() ==> sample_of(rows, names, source[n].0, source[n].1, #[trigger] out[n])
            && (source[n].0 < row || (source[n].0 == row && source[n].1 < cell))
    &&& forall|r: int, c: int|
        0 <= r < rows.len() && 0 <= c < rows[r].counts@.len() && (r < row || (r == row && c < cell))
            ==> #[trigger] emitted(source, r, c)
    &&& forall|a: int, b: int|
        0 <= a < b < source.len() ==> #[trigger] source[a] != #[trigger] source[b]
}

proof fn lemma_emitted_all(
    rows: Seq<PoolCounts>,
    names: Option<Vec<(String, String)>>,
    out: Seq<Sample>,
    source: Seq<(int, int)>,
)
    requires
        rows_wf(rows),
        emitted_up_to(rows, names, out, source, rows.len() as int, 0),
    ensures
        published(rows_map(rows), names, out),
{
    let m = rows_map(rows);
    assert forall|n: int| 0 <= n < out.len() implies {
        &&& m.dom().contains((#[trigger] out[n]).pool@)
        &&& m[out[n].pool@].dom().contains(out[n].category@)
        &&& m[out[n].pool@][out[n].category@] == out[n].count
        &&& out[n].label@ == display_name(names, out[n].pool@)
    } by {
        assert(sample_of(rows, names, source[n].0, source[n].1, out[n]));
        lemma_rows_at(rows, source[n].0);
        assert(categories_distinct(rows[source[n].0].counts@));
        lemma_counts_at(rows[source[n].0].counts@, source[n].1);
    }
    assert forall|pool: Seq<char>, category: Seq<char>|
        m.dom().contains(pool) && #[trigger] m[pool].dom().contains(category) implies exists|n: int|
        0 <= n < out.len() && (#[trigger] out[n]).pool@ == pool && out[n].category@ == category by {
        let r = pool_index(rows, pool);
        assert(0 <= r < rows.len() && rows[r].pool@ == pool);
        lemma_rows_at(rows, r);
        let c = category_index(rows[r].counts@, category);
        assert(0 <= c < rows[r].counts@.len() && rows[r].counts@[c].category@ == category);
        assert(emitted(source, r, c));
        let n = choose|n: int| 0 <= n < source.len() && #[trigger] source[n] == (r, c);
        assert(sample_of(rows, names, source[n].0, source[n].1, out[n]));
    }
    assert forall|a: int, b: int| 0 <= a < b < out.len() implies !((#[trigger] out[a]).pool@ == (
    #[trigger] out[b]).pool@ && out[a].category@ == out[b].category@) by {
        assert(sample_of(rows, names, source[a].0, source[a].1, out[a]));
        assert(sample_of(rows, names, source[b].0, source[b].1, out[b]));
        assert(source[a] != source[b]);
        let ra = source[a].0;
        let rb = source[b].0;
        if out[a].pool@ == out[b].pool@ && out[a].category@ == out[b].category@ {
            if ra < rb {
                assert(rows[ra].pool@ != rows[rb].pool@);
            } else if rb < ra {
                assert(rows[rb].pool@ != rows[ra].pool@);
            }
            assert(ra == rb);
            assert(categories_distinct(rows[ra].counts@));
            let ca = source[a].1;
            let cb = source[b].1;
            if ca < cb {
                assert(rows[ra].counts@[ca].category@ != rows[ra].counts@[cb].category@);
            } else if cb < ca {
                assert(rows[ra].counts@[cb].category@ != rows[ra].counts@[ca].category@);
            }
            assert(ca == cb);
        }
    }
}

/// After a flush every count is zero.
pub proof fn lemma_flushed_all_zero(m: Map<Seq<char>, Map<Seq<char>, int>>)
    ensures
        all_zero(flushed(m)),
        flushed(m).dom() == m.dom(),
{
    assert(flushed(m).dom() =~= m.dom());
}

/// Seeding a pool leaves a matrix of zeros a matrix of zeros.
pub proof fn lemma_seeded_all_zero(
    m: Map<Seq<char>, Map<Seq<char>, int>>,
    pool: Seq<char>,
    categories: Set<Seq<char>>,
)
    requires
        all_zero(m),
    ensures
        all_zero(seeded(m, pool, categories)),
{
}

/// Counting one more entity raises no count by more than one.
pub proof fn lemma_incremented_bounded(
    m: Map<Seq<char>, Map<Seq<char>, int>>,
    pool: Seq<char>,
    category: Seq<char>,
    bound: int,
)
    requires
        0 <= bound,
        bounded(m, bound),
    ensures
        0 <= count_of(m, pool, category) <= bound,
        bounded(incremented(m, pool, category), bound + 1),
        bounded(m, bound + 1),
{
    let after = incremented(m, pool, category);
    if m.dom().contains(pool) && m[pool].dom().contains(category) {
        assert(0 <= m[pool][category] <= bound);
    }
    assert forall|p: Seq<char>, c: Seq<char>|
        after.dom().contains(p) && #[trigger] after[p].dom().contains(c) implies 0 <= after[p][c]
        <= bound + 1 by {
        if p == pool {
            if c != category {
                assert(m.dom().contains(pool));
                assert(m[p].dom().contains(c));
            }
        } else {
            assert(m.dom().contains(p));
            assert(m[p].dom().contains(c));
        }
    }
    assert forall|p: Seq<char>, c: Seq<char>|
        m.dom().contains(p) && #[trigger] m[p].dom().contains(c) implies 0 <= m[p][c] <= bound
        + 1 by {}
}

/// `m` after each of `pools` that is in scope was seeded with `categories`, in turn.
pub open spec fn seeded_pools(
    m: Map<Seq<char>, Map<Seq<char>, int>>,
    only: Set<Seq<char>>,
    skip: Set<Seq<char>>,
    pools: Seq<DesktopPool>,
    categories: Set<Seq<char>>,
) -> Map<Seq<char>, Map<Seq<char>, int>>
    decreases pools.len(),
{
    if pools.len() == 0 {
        m
    } else {
        let before = seeded_pools(m, only, skip, pools.drop_last(), categories);
        if pool_in_scope(pools.last().id@, only, skip) {
            seeded(before, pools.last().id@, categories)
        } else {
            before
        }
    }
}

/// Seeding pools leaves a matrix of zeros a matrix of zeros, and drops no pool.
pub proof fn lemma_seeded_pools_all_zero(
    m: Map<Seq<char>, Map<Seq<char>, int>>,
    only: Set<Seq<char>>,
    skip: Set<Seq<char>>,
    pools: Seq<DesktopPool>,
    categories: Set<Seq<char>>,
)
    requires
        all_zero(m),
    ensures
        all_zero(seeded_pools(m, only, skip, pools, categories)),
    decreases pools.len(),
{
    if pools.len() > 0 {
        lemma_seeded_pools_all_zero(m, only, skip, pools.drop_last(), categories);
        lemma_seeded_all_zero(
            seeded_pools(m, only, skip, pools.drop_last(), categories),
            pools.last().id@,
            categories,
        );
    }
}

/// The counters of one dimension: for each pool that ever came into scope, one
/// count per category label.
pub struct CounterMatrix {
    rows: Vec<PoolCounts>,
}

impl View for CounterMatrix {
    type V = Map<Seq<char>, Map<Seq<char>, int>>;

    closed spec fn view(&self) -> Map<Seq<char>, Map<Seq<char>, int>> {
        rows_map(self.rows@)
    }
}

fn find_category(cells: &Vec<CategoryCount>, category: &String) -> (found: Option<usize>)
    ensures
        match found {
            Some(i) => i < cells@.len() && cells@[i as int].category@ == category@,
            None => !has_category(cells@, category@),
        },
{
    let mut i: usize = 0;
    while i < cells.len()
        invariant
            i <= cells@.len(),
            forall|k: int| 0 <= k < i ==> #[trigger] cells@[k].category@ != category@,
        decreases cells@.len() - i,
    {
        if cells[i].category == *category {
            return Some(i);
        }
        i = i + 1;
    }
    None
}

fn zero_cells(cells: &mut Vec<CategoryCount>)
    ensures
        final(cells)@.len() == old(cells)@.len(),
        forall|c: int|
            0 <= c < old(cells)@.len() ==> (#[trigger] final(cells)@[c]).category@ == old(
                cells,
            )@[c].category@ && final(cells)@[c].count == 0,
{
    let ghost before = cells@;
    let mut j: usize = 0;
    while j < cells.len()
        invariant
            j <= cells@.len(),
            cells@.len() == before.len(),
            forall|c: int|
                0 <= c < before.len() ==> (#[trigger] cells@[c]).category@ == before[c].category@,
            forall|c: int| 0 <= c < j ==> (#[trigger] cells@[c]).count == 0,
        decreases cells@.len() - j,
    {
        cells[j].count = 0;
        j = j + 1;
    }
}

impl CounterMatrix {
    /// No pool is held twice, and no category twice within a pool.
    pub closed spec fn wf(&self) -> bool {
        rows_wf(self.rows@)
    }

    /// No count of a well-formed matrix is negative.
    pub proof fn lemma_counts_not_negative(&self)
        requires
            self.wf(),
        ensures
            not_negative(self@),
    {
        assert forall|pool: Seq<char>, category: Seq<char>|
            self@.dom().contains(pool) && #[trigger] self@[pool].dom().contains(category) implies 0
            <= self@[pool][category] by {
            let r = pool_index(self.rows@, pool);
            assert(0 <= r < self.rows@.len() && self.rows@[r].pool@ == pool);
            lemma_rows_at(self.rows@, r);
            let cells = self.rows@[r].counts@;
            let c = category_index(cells, category);
            assert(0 <= c < cells.len() && cells[c].category@ == category);
            assert(counts_nonnegative(cells));
            lemma_counts_at(cells, c);
        }
    }

    /// A matrix that knows no pool.
    pub fn new() -> (m: CounterMatrix)
        ensures
            m.wf(),
            m@ == Map::<Seq<char>, Map<Seq<char>, int>>::empty(),
    {
        let m = CounterMatrix { rows: Vec::new() };
        assert(m@ =~= Map::<Seq<char>, Map<Seq<char>, int>>::empty());
        m
    }

    fn find_pool(&self, pool: &String) -> (found: Option<usize>)
        ensures
            match found {
                Some(i) => i < self.rows@.len() && self.rows@[i as int].pool@ == pool@,
                None => !has_pool(self.rows@, pool@),
            },
    {
        let mut i: usize = 0;
        while i < self.rows.len()
            invariant
                i <= self.rows@.len(),
                forall|k: int| 0 <= k < i ==> #[trigger] self.rows@[k].pool@ != pool@,
            decreases self.rows@.len() - i,
        {
            if self.rows[i].pool == *pool {
                return Some(i);
            }
            i = i + 1;
        }
        None
    }

    /// Whether the matrix holds buckets for `pool`.
    pub fn contains_pool(&self, pool: &str) -> (known: bool)
        requires
            self.wf(),
        ensures
            known == self@.dom().contains(pool@),
    {
        let key = pool.to_string();
        match self.find_pool(&key) {
            Some(i) => {
                proof {
                    lemma_rows_at(self.rows@, i as int);
                }
                true
            },
            None => false,
        }
    }

    /// The count of `category` in `pool`, where the matrix holds such a bucket.
    pub fn get(&self, pool: &str, category: &str) -> (count: Option<i64>)
        requires
            self.wf(),
        ensures
            count.is_some() == (self@.dom().contains(pool@) && self@[pool@].dom().contains(
                category@,
            )),
            count.is_some() ==> count.unwrap() == self@[pool@][category@],
    {
        let pool_key = pool.to_string();
        let category_key = category.to_string();
        match self.find_pool(&pool_key) {
            Some(i) => {
                proof {
                    lemma_rows_at(self.rows@, i as int);
                }
                match find_category(&self.rows[i].counts, &category_key) {
                    Some(j) => {
                        proof {
                            lemma_counts_at(self.rows@[i as int].counts@, j as int);
                        }
                        Some(self.rows[i].counts[j].count)
                    },
                    None => None,
                }
            },
            None => None,
        }
    }

    /// Sets every count to zero and keeps every pool and category.
    pub fn flush(&mut self)
        requires
            old(self).wf(),
        ensures
            final(self).wf(),
            final(self)@ == flushed(old(self)@),
    {
        let ghost before = self.rows@;
        let mut i: usize = 0;
        while i < self.rows.len()
            invariant
                i <= self.rows@.len(),
                self.rows@.len() == before.len(),
                forall|r: int| 0 <= r < before.len() ==> #[trigger] self.rows@[r].pool@ == before[r].pool@,
                forall|r: int|
                    0 <= r < before.len() ==> (#[trigger] self.rows@[r]).counts@.len()
                        == before[r].counts@.len(),
                forall|r: int, c: int|
                    0 <= r < before.len() && 0 <= c < before[r].counts@.len() ==> (
                    #[trigger] self.rows@[r].counts@[c]).category@ == before[r].counts@[c].category@,
                forall|r: int, c: int|
                    0 <= r < i && 0 <= c < before[r].counts@.len() ==> (
                    #[trigger] self.rows@[r].counts@[c]).count == 0,
            decreases self.rows@.len() - i,
        {
            let ghost earlier = self.rows@;
            zero_cells(&mut self.rows[i].counts);
            assert(self.rows@.len() == earlier.len());
            assert(self.rows@[i as int].pool == earlier[i as int].pool);
            assert(forall|r: int|
                0 <= r < earlier.len() && r != i ==> #[trigger] self.rows@[r] == earlier[r]);
            assert forall|r: int| 0 <= r < before.len() implies #[trigger] self.rows@[r].pool@
                == before[r].pool@ by {
                assert(earlier[r].pool@ == before[r].pool@);
            }
            i = i + 1;
        }
        proof {
            lemma_rows_zeroed(before, self.rows@);
        }
    }

    /// Counts one more entity under `category` in `pool`. A pool or a category
    /// that the matrix does not hold yet is added.
    pub fn increment(&mut self, pool: &str, category: &str)
        requires
            old(self).wf(),
            count_of(old(self)@, pool@, category@) < i64::MAX,
        ensures
            final(self).wf(),
            final(self)@ == incremented(old(self)@, pool@, category@),
    {
        let ghost m0 = self@;
        let ghost rows0 = self.rows@;
        let pool_key = pool.to_string();
        let category_key = category.to_string();
        let i: usize = match self.find_pool(&pool_key) {
            Some(i) => {
                proof {
                    lemma_rows_at(rows0, i as int);
                    assert(m0.insert(pool@, row_of(m0, pool@)) =~= m0);
                }
                i
            },
            None => {
                let row = PoolCounts { pool: pool_key, counts: Vec::new() };
                proof {
                    assert(counts_map(row.counts@) =~= Map::<Seq<char>, int>::empty());
                    lemma_rows_push(rows0, row);
                }
                self.rows.push(row);
                self.rows.len() - 1
            },
        };
        let ghost rows1 = self.rows@;
        let ghost row1 = row_of(m0, pool@);
        assert(rows_wf(rows1));
        assert(rows1[i as int].pool@ == pool@);
        assert(counts_map(rows1[i as int].counts@) == row1);
        assert(rows_map(rows1) == m0.insert(pool@, row1));
        let j: usize = match find_category(&self.rows[i].counts, &category_key) {
            Some(j) => {
                proof {
                    lemma_counts_at(rows1[i as int].counts@, j as int);
                    assert(row1.insert(category@, count_of(m0, pool@, category@)) =~= row1);
                }
                j
            },
            None => {
                let cell = CategoryCount { category: category_key, count: 0 };
                proof {
                    lemma_counts_push(rows1[i as int].counts@, cell);
                }
                self.rows[i].counts.push(cell);
                proof {
                    assert(counts_nonnegative(rows1[i as int].counts@));
                    lemma_rows_set(rows1, self.rows@, i as int);
                }
                self.rows[i].counts.len() - 1
            },
        };
        let ghost rows2 = self.rows@;
        let ghost current = count_of(m0, pool@, category@);
        assert(rows_wf(rows2));
        assert(rows2[i as int].pool@ == pool@);
        assert(rows2[i as int].counts@[j as int].category@ == category@);
        assert(rows2[i as int].counts@[j as int].count == current);
        assert(counts_map(rows2[i as int].counts@) == row1.insert(category@, current));
        assert(rows_map(rows2) =~= m0.insert(pool@, row1.insert(category@, current)));
        self.rows[i].counts[j].count = self.rows[i].counts[j].count + 1;
        proof {
            assert(counts_nonnegative(rows2[i as int].counts@));
            lemma_counts_set(rows2[i as int].counts@, self.rows@[i as int].counts@, j as int);
            lemma_rows_set(rows2, self.rows@, i as int);
            assert(row1.insert(category@, current).insert(category@, current + 1) =~= row1.insert(
                category@,
                current + 1,
            ));
            assert(self@ =~= incremented(m0, pool@, category@));
        }
    }

    /// Brings `pool` into the matrix with one bucket at zero for each of
    /// `categories`. A pool that the matrix holds already is left as it is.
    pub fn seed(&mut self, pool: &str, categories: &Vec<&'static str>)
        requires
            old(self).wf(),
        ensures
            final(self).wf(),
            final(self)@ == seeded(old(self)@, pool@, label_set(categories@)),
    {
        let pool_key = pool.to_string();
        match self.find_pool(&pool_key) {
            Some(i) => {
                proof {
                    lemma_rows_at(self.rows@, i as int);
                }
            },
            None => {
                let mut counts: Vec<CategoryCount> = Vec::new();
                let mut k: usize = 0;
                assert(counts_map(counts@) =~= zero_counts(label_set(categories@.take(0))));
                while k < categories.len()
                    invariant
                        k <= categories@.len(),
                        categories_distinct(counts@),
                        counts_nonnegative(counts@),
                        counts_map(counts@) == zero_counts(label_set(categories@.take(k as int))),
                    decreases categories@.len() - k,
                {
                    let label = categories[k].to_string();
                    proof {
                        lemma_label_set_step(categories@, k as int);
                    }
                    let ghost narrow = label_set(categories@.take(k as int));
                    match find_category(&counts, &label) {
                        Some(n) => {
                            proof {
                                lemma_counts_at(counts@, n as int);
                                assert(narrow.insert(label@) =~= narrow);
                            }
                        },
                        None => {
                            let cell = CategoryCount { category: label, count: 0 };
                            proof {
                                lemma_counts_push(counts@, cell);
                                assert(zero_counts(narrow).insert(cell.category@, 0int)
                                    =~= zero_counts(narrow.insert(cell.category@)));
                            }
                            counts.push(cell);
                        },
                    }
                    k = k + 1;
                }
                assert(categories@.take(k as int) =~= categories@);
                let row = PoolCounts { pool: pool_key, counts };
                proof {
                    lemma_rows_push(self.rows@, row);
                }
                self.rows.push(row);
            },
        }
    }

    /// Every bucket of the matrix, as it is handed to the metric sink.
    pub fn samples(&self, names: &Option<Vec<(String, String)>>) -> (out: Vec<Sample>)
        requires
            self.wf(),
        ensures
            published(self@, *names, out@),
    {
        let mut out: Vec<Sample> = Vec::new();
        let ghost mut source: Seq<(int, int)> = Seq::empty();
        let mut i: usize = 0;
        while i < self.rows.len()
            invariant
                i <= self.rows@.len(),
                emitted_up_to(self.rows@, *names, out@, source, i as int, 0),
            decreases self.rows@.len() - i,
        {
            let label = resolve_name(names, &self.rows[i].pool);
            let mut j: usize = 0;
            while j < self.rows[i].counts.len()
                invariant
                    i < self.rows@.len(),
                    j <= self.rows@[i as int].counts@.len(),
                    label@ == display_name(*names, self.rows@[i as int].pool@),
                    emitted_up_to(self.rows@, *names, out@, source, i as int, j as int),
                decreases self.rows@[i as int].counts@.len() - j,
            {
                let sample = Sample {
                    pool: self.rows[i].pool.clone(),
                    label: label.clone(),
                    category: self.rows[i].counts[j].category.clone(),
                    count: self.rows[i].counts[j].count,
                };
                let ghost before = source;
                let ghost out_before = out@;
                out.push(sample);
                proof {
                    source = source.push((i as int, j as int));
                    assert forall|n: int| 0 <= n < out@.len() implies sample_of(
                        self.rows@,
                        *names,
                        source[n].0,
                        source[n].1,
                        #[trigger] out@[n],
                    ) && (source[n].0 < i || (source[n].0 == i && source[n].1 < j + 1)) by {
                        if n < out_before.len() {
                            assert(out@[n] == out_before[n]);
                            assert(source[n] == before[n]);
                        }
                    }
                    assert forall|r: int, c: int|
                        0 <= r < self.rows@.len() && 0 <= c < self.rows@[r].counts@.len() && (r < i
                            || (r == i && c < j + 1)) implies #[trigger] emitted(source, r, c) by {
                        if r == i && c == j {
                            assert(source[before.len() as int] == (r, c));
                        } else {
                            assert(emitted(before, r, c));
                            let n = choose|n: int|
                                0 <= n < before.len() && #[trigger] before[n] == (r, c);
                            assert(source[n] == (r, c));
                        }
                    }
                    assert forall|a: int, b: int| 0 <= a < b < source.len() implies #[trigger] source[a]
                        != #[trigger] source[b] by {
                        if b < before.len() {
                            assert(before[a] != before[b]);
                        } else {
                            assert(sample_of(
                                self.rows@,
                                *names,
                                before[a].0,
                                before[a].1,
                                out_before[a],
                            ) && (before[a].0 < i || (before[a].0 == i && before[a].1 < j)));
                        }
                    }
                    assert(emitted_up_to(self.rows@, *names, out@, source, i as int, j + 1));
                }
                j = j + 1;
            }
            assert(emitted_up_to(self.rows@, *names, out@, source, i + 1, 0));
            i = i + 1;
        }
        proof {
            lemma_emitted_all(self.rows@, *names, out@, source);
        }
        out
    }
}

} // verus!
