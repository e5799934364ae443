//! Level numbers of a scaling configuration: their minimum and maximum.
use vstd::prelude::*;

verus! {

/// Smallest level number, or 1 when there is none.
pub open spec fn min_level_of(nums: Seq<u32>) -> u32
    decreases nums.len(),
{
    if nums.len() == 0 {
        1
    } else if nums.len() == 1 {
        nums[0]
    } else {
        let m = min_level_of(nums.drop_last());
        if nums.last() < m {
            nums.last()
        } else {
            m
        }
    }
}

/// Largest level number, or 1 when there is none.
pub open spec fn max_level_of(nums: Seq<u32>) -> u32
    decreases nums.len(),
{
    if nums.len() == 0 {
        1
    } else if nums.len() == 1 {
        nums[0]
    } else {
        let m = max_level_of(nums.drop_last());
        if nums.last() > m {
            nums.last()
        } else {
            m
        }
    }
}

/// For a non-empty list the minimum is one of the numbers and no number is below it;
/// likewise for the maximum.
pub proof fn lemma_min_max_level(nums: Seq<u32>)
    requires
        nums.len() > 0,
    ensures
        nums.contains(min_level_of(nums)),
        nums.contains(max_level_of(nums)),
        forall|i: int| 0 <= i < nums.len() ==> min_level_of(nums) <= #[trigger] nums[i],
        forall|i: int| 0 <= i < nums.len() ==> nums[i] <= #[trigger] max_level_of(nums),
    decreases nums.len(),
{
    if nums.len() == 1 {
        assert(nums[0] == min_level_of(nums));
    } else {
        let p = nums.drop_last();
        lemma_min_max_level(p);
        assert forall|i: int| 0 <= i < nums.len() implies min_level_of(nums) <= #[trigger] nums[i]
            && nums[i] <= max_level_of(nums) by {
            if i < nums.len() - 1 {
                assert(nums[i] == p[i]);
            }
        }
        if nums.last() < min_level_of(p) {
            assert(nums[nums.len() - 1] == min_level_of(nums));
        } else {
            let k = choose|k: int| 0 <= k < p.len() && p[k] == min_level_of(p);
            assert(nums[k] == min_level_of(nums));
        }
        if nums.last() > max_level_of(p) {
            assert(nums[nums.len() - 1] == max_level_of(nums));
        } else {
            let k = choose|k: int| 0 <= k < p.len() && p[k] == max_level_of(p);
            assert(nums[k] == max_level_of(nums));
        }
    }
}

/// One more number folded into a running minimum and maximum.
pub proof fn lemma_min_max_step(nums: Seq<u32>, i: int)
    requires
        0 <= i < nums.len(),
    ensures
        min_level_of(nums.take(i + 1)) == (if i == 0 {
            nums[0]
        } else if nums[i] < min_level_of(nums.take(i)) {
            nums[i]
        } else {
            min_level_of(nums.take(i))
        }),
        max_level_of(nums.take(i + 1)) == (if i == 0 {
            nums[0]
        } else if nums[i] > max_level_of(nums.take(i)) {
            nums[i]
        } else {
            max_level_of(nums.take(i))
        }),
{
    assert(nums.take(i + 1).drop_last() =~= nums.take(i));
}

/// An entry of a level list: something that carries a level number.
pub trait Leveled {
    spec fn spec_level(&self) -> u32;

    fn level_number(&self) -> (r: u32)
        ensures
            r == self.spec_level(),
    ;
}

/// The level numbers of a list of levels, in order.
pub open spec fn numbers_of<L: Leveled>(levels: Seq<L>) -> Seq<u32> {
    levels.map_values(|l: L| l.spec_level())
}

/// Some entry has number `n`.
pub open spec fn has_level_in<L: Leveled>(levels: Seq<L>, n: int) -> bool {
    exists|i: int| 0 <= i < levels.len() && levels[i].spec_level() == n
}

/// Index of the first entry with number `n` (meaningful when `has_level_in(levels, n)`).
pub open spec fn level_index_in<L: Leveled>(levels: Seq<L>, n: int) -> int {
    choose|i: int|
        0 <= i < levels.len() && levels[i].spec_level() == n && forall|j: int|
            0 <= j < i ==> levels[j].spec_level() != n
}

proof fn lemma_first_entry<L: Leveled>(levels: Seq<L>, n: int, k: int)
    requires
        0 <= k < levels.len(),
        levels[k].spec_level() == n,
    ensures
        exists|i: int|
            0 <= i < levels.len() && levels[i].spec_level() == n && forall|j: int|
                0 <= j < i ==> levels[j].spec_level() != n,
    decreases k,
{
    if exists|j: int| 0 <= j < k && levels[j].spec_level() == n {
        let j = choose|j: int| 0 <= j < k && levels[j].spec_level() == n;
        lemma_first_entry(levels, n, j);
    } else {
        assert(forall|j: int| 0 <= j < k ==> levels[j].spec_level() != n);
    }
}

/// When some entry has number `n`, the first such entry is found at `level_index_in`.
pub proof fn lemma_level_index<L: Leveled>(levels: Seq<L>, n: int)
    requires
        has_level_in(levels, n),
    ensures
        0 <= level_index_in(levels, n) < levels.len(),
        levels[level_index_in(levels, n)].spec_level() == n,
        forall|j: int| 0 <= j < level_index_in(levels, n) ==> levels[j].spec_level() != n,
{
    let k = choose|i: int| 0 <= i < levels.len() && levels[i].spec_level() == n;
    lemma_first_entry(levels, n, k);
}

/// Position of the first entry with number `n`.
pub fn find_level<L: Leveled>(levels: &Vec<L>, n: u32) -> (r: Option<usize>)
    ensures
        r is None <==> !has_level_in(levels@, n as int),
        r matches Some(i) ==> i == level_index_in(levels@, n as int) && i < levels@.len(),
{
    let len = levels.len();
    let mut i: usize = 0;
    while i < len
        invariant
            len == levels@.len(),
            i <= len,
            forall|j: int| 0 <= j < i ==> levels@[j].spec_level() != n,
        decreases len - i,
    {
        if levels[i].level_number() == n {
            proof {
                let k = level_index_in(levels@, n as int);
                assert(0 <= k < len && levels@[k].spec_level() == n && forall|j: int|
                    0 <= j < k ==> levels@[j].spec_level() != n);
                if k < i {
                    assert(false);
                }
                if k > i {
                    assert(levels@[i as int].spec_level() == n);
                    assert(false);
                }
            }
            return Some(i);
        }
        i = i + 1;
    }
    None
}

/// Smallest level number of the entries, 1 when there is none.
pub fn min_level_in<L: Leveled>(levels: &Vec<L>) -> (r: u32)
    ensures
        r == min_level_of(numbers_of(levels@)),
{
    let n = levels.len();
    let mut m: u32 = 1;
    let mut i: usize = 0;
    while i < n
        invariant
            n == levels@.len(),
            i <= n,
            m == min_level_of(numbers_of(levels@).take(i as int)),
        decreases n - i,
    {
        proof {
            lemma_min_max_step(numbers_of(levels@), i as int);
        }
        let l = levels[i].level_number();
        if i == 0 || l < m {
            m = l;
        }
        i = i + 1;
    }
    assert(numbers_of(levels@).take(n as int) =~= numbers_of(levels@));
    m
}

/// Largest level number of the entries, 1 when there is none.
pub fn max_level_in<L: Leveled>(levels: &Vec<L>) -> (r: u32)
    ensures
        r == max_level_of(numbers_of(levels@)),
{
    let n = levels.len();
    let mut m: u32 = 1;
    let mut i: usize = 0;
    while i < n
        invariant
            n == levels@.len(),
            i <= n,
            m == max_level_of(numbers_of(levels@).take(i as int)),
        decreases n - i,
    {
        proof {
            lemma_min_max_step(numbers_of(levels@), i as int);
        }
        let l = levels[i].level_number();
        if i == 0 || l > m {
            m = l;
        }
        i = i + 1;
    }
    assert(numbers_of(levels@).take(n as int) =~= numbers_of(levels@));
    m
}

} // verus!
