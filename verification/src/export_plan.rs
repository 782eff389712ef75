//! Where output files go: the destinations of a whole export are planned before anything
//! is written, so that no two outputs of one task share a file and, unless replacing is
//! asked for, no existing file is overwritten.

use vstd::prelude::*;

use crate::text::{chars_of, decimal, lemma_decimal_injective, push_char, push_chars, push_decimal};
use crate::workspace::extension_dot;
use vstd::relations::injective_on;
use vstd::set_lib::{lemma_int_range, lemma_len_subset, lemma_map_size, set_int_range};

verus! {

/// What to do when an output file is already taken.
#[derive(Debug, Clone, Copy, PartialEq, Eq, Structural)]
pub enum CollisionPolicy {
    /// Write next to it under a numbered name.
    PreserveBoth,
    /// Do not write this output.
    Skip,
    /// Overwrite the file on disk (two outputs of one task still never share a file).
    Replace,
}

impl Default for CollisionPolicy {
    fn default() -> (policy: CollisionPolicy)
        ensures
            policy == CollisionPolicy::PreserveBoth,
    {
        CollisionPolicy::PreserveBoth
    }
}

/// An output file: a directory and the name of the file in it.
#[derive(Debug, Clone, PartialEq, Eq)]
pub struct OutputTarget {
    /// The directory.
    pub directory: String,
    /// The file name (one path component).
    pub file_name: String,
}

/// A target as text: directory and file name.
pub type TargetView = (Seq<char>, Seq<char>);

impl OutputTarget {
    /// The target as text.
    pub open spec fn tv(&self) -> TargetView {
        (self.directory@, self.file_name@)
    }

    /// A copy of this target.
    pub fn duplicate(&self) -> (copy: OutputTarget)
        ensures
            copy.tv() == self.tv(),
    {
        OutputTarget { directory: self.directory.clone(), file_name: self.file_name.clone() }
    }
}

/// The text views of a list of targets.
pub open spec fn target_views(targets: Seq<OutputTarget>) -> Seq<TargetView> {
    targets.map_values(|t: OutputTarget| t.tv())
}

/// The text views of planned destinations.
pub open spec fn plan_views(plan: Seq<Option<OutputTarget>>) -> Seq<Option<TargetView>> {
    plan.map_values(
        |o: Option<OutputTarget>|
            match o {
                Some(t) => Some(t.tv()),
                None => None,
            },
    )
}

/// The stem of a file name, as `Path::file_stem` gives it, with `image` in place of a
/// missing or empty stem.
pub open spec fn name_stem(name: Seq<char>) -> Seq<char> {
    let stem = if name == ".."@ {
        Seq::<char>::empty()
    } else {
        match extension_dot(name) {
            Some(i) => name.take(i),
            None => name,
        }
    };
    if stem.len() == 0 {
        "image"@
    } else {
        stem
    }
}

/// The extension of a file name, as `Path::extension` gives it.
pub open spec fn name_extension(name: Seq<char>) -> Option<Seq<char>> {
    if name == ".."@ {
        None
    } else {
        match extension_dot(name) {
            Some(i) => Some(name.skip(i + 1)),
            None => None,
        }
    }
}

/// The `n`-th alternative name for `name`: `stem-n.ext`, or `stem-n` without an
/// extension.
pub open spec fn numbered_name(name: Seq<char>, n: nat) -> Seq<char> {
    match name_extension(name) {
        Some(ext) => name_stem(name) + seq!['-'] + decimal(n) + seq!['.'] + ext,
        None => name_stem(name) + seq!['-'] + decimal(n),
    }
}

/// Whether `t` is taken: present on disk or already given to an earlier output.
pub open spec fn is_taken(t: TargetView, existing: Seq<TargetView>, reserved: Seq<TargetView>) -> bool {
    existing.contains(t) || reserved.contains(t)
}

/// The numbered alternative `n` for the requested target.
pub open spec fn alternative(req: TargetView, n: nat) -> TargetView {
    (req.0, numbered_name(req.1, n))
}

/// The first free numbered alternative (numbers from 2 up to the largest `u64`), if any.
pub open spec fn first_free_alternative(
    req: TargetView,
    existing: Seq<TargetView>,
    reserved: Seq<TargetView>,
) -> Option<TargetView> {
    if exists|n: nat|
        2 <= n <= u64::MAX && !is_taken(alternative(req, n), existing, reserved) {
        let n = choose|n: nat|
            2 <= n <= u64::MAX && !is_taken(alternative(req, n), existing, reserved) && forall|
                m: nat,
            |
                2 <= m < n ==> is_taken(alternative(req, m), existing, reserved);
        Some(alternative(req, n))
    } else {
        None
    }
}

/// The destination of one requested target, given the files on disk and the targets
/// already planned for earlier outputs.
pub open spec fn plan_one(
    req: TargetView,
    existing: Seq<TargetView>,
    reserved: Seq<TargetView>,
    policy: CollisionPolicy,
) -> Option<TargetView> {
    let taken = is_taken(req, existing, reserved);
    match policy {
        CollisionPolicy::Skip => if taken {
            None
        } else {
            Some(req)
        },
        CollisionPolicy::Replace => if !reserved.contains(req) {
            Some(req)
        } else {
            first_free_alternative(req, existing, reserved)
        },
        CollisionPolicy::PreserveBoth => if !taken {
            Some(req)
        } else {
            first_free_alternative(req, existing, reserved)
        },
    }
}

/// The targets planned so far, in order.
pub open spec fn reserved_of(plan: Seq<Option<TargetView>>) -> Seq<TargetView>
    decreases plan.len(),
{
    if plan.len() == 0 {
        Seq::empty()
    } else {
        match plan.last() {
            Some(t) => reserved_of(plan.drop_last()).push(t),
            None => reserved_of(plan.drop_last()),
        }
    }
}

/// The destinations of a whole export, planned in request order.
pub open spec fn spec_plan(
    requested: Seq<TargetView>,
    existing: Seq<TargetView>,
    policy: CollisionPolicy,
) -> Seq<Option<TargetView>>
    decreases requested.len(),
{
    if requested.len() == 0 {
        Seq::empty()
    } else {
        let earlier = spec_plan(requested.drop_last(), existing, policy);
        earlier.push(plan_one(requested.last(), existing, reserved_of(earlier), policy))
    }
}

/// Numbered alternatives with different numbers have different names.
proof fn lemma_numbered_injective(name: Seq<char>, a: nat, b: nat)
    requires
        numbered_name(name, a) == numbered_name(name, b),
    ensures
        a == b,
{
    let p = name_stem(name) + seq!['-'];
    let x = numbered_name(name, a);
    let y = numbered_name(name, b);
    let (da, db) = (decimal(a), decimal(b));
    match name_extension(name) {
        Some(e) => {
            let tail = seq!['.'] + e;
            assert(x =~= p + da + tail);
            assert(y =~= p + db + tail);
            assert(da.len() == db.len());
            assert(da =~= x.subrange(p.len() as int, (p.len() + da.len()) as int));
            assert(db =~= y.subrange(p.len() as int, (p.len() + db.len()) as int));
        },
        None => {
            assert(x =~= p + da);
            assert(y =~= p + db);
            assert(da =~= x.subrange(p.len() as int, x.len() as int));
            assert(db =~= y.subrange(p.len() as int, y.len() as int));
        },
    }
    lemma_decimal_injective(a, b);
}

/// With few enough taken targets, a free numbered alternative exists, and the first one
/// is not taken.
proof fn lemma_alternative_exists(req: TargetView, existing: Seq<TargetView>, reserved: Seq<TargetView>)
    requires
        existing.len() + reserved.len() + 3 <= u64::MAX,
    ensures
        first_free_alternative(req, existing, reserved) is Some,
{
    let k = existing.len() + reserved.len();
    let all = existing + reserved;
    if forall|n: nat| 2 <= n <= u64::MAX ==> is_taken(alternative(req, n), existing, reserved) {
        let xs = set_int_range(2, (k + 3) as int);
        let f = |n: int| alternative(req, n as nat);
        let ys = xs.map(f);
        lemma_int_range(2, (k + 3) as int);
        assert(injective_on(f, xs)) by {
            assert forall|m: int, n: int| xs.contains(m) && xs.contains(n) && #[trigger] f(m) == #[trigger] f(n) implies m == n by {
                lemma_numbered_injective(req.1, m as nat, n as nat);
            }
        }
        lemma_map_size(xs, ys, f);
        assert(ys.subset_of(all.to_set())) by {
            assert forall|t: TargetView| ys.contains(t) implies all.to_set().contains(t) by {
                let n = choose|n: int| xs.contains(n) && f(n) == t;
                assert(is_taken(alternative(req, n as nat), existing, reserved));
                if existing.contains(t) {
                    let j = choose|j: int| 0 <= j < existing.len() && existing[j] == t;
                    assert(all[j] == t);
                } else {
                    let j = choose|j: int| 0 <= j < reserved.len() && reserved[j] == t;
                    assert(all[existing.len() + j] == t);
                }
            }
        }
        all.lemma_cardinality_of_set();
        lemma_len_subset(ys, all.to_set());
        assert(false);
    }
}

/// Whether every numbered alternative below `n` is taken.
pub open spec fn taken_below(req: TargetView, existing: Seq<TargetView>, reserved: Seq<TargetView>, n: nat) -> bool {
    forall|m: nat| 2 <= m < n ==> is_taken(alternative(req, m), existing, reserved)
}

/// A free alternative implies a first free one.
proof fn lemma_least_free(req: TargetView, existing: Seq<TargetView>, reserved: Seq<TargetView>, n0: nat)
    requires
        2 <= n0 <= u64::MAX,
        !is_taken(alternative(req, n0), existing, reserved),
    ensures
        exists|n: nat|
            2 <= n <= u64::MAX && !is_taken(alternative(req, n), existing, reserved) && forall|m: nat|
                2 <= m < n ==> is_taken(alternative(req, m), existing, reserved),
    decreases n0,
{
    if taken_below(req, existing, reserved, n0) {
        assert(2 <= n0 <= u64::MAX && !is_taken(alternative(req, n0), existing, reserved) && forall|m: nat|
            2 <= m < n0 ==> is_taken(alternative(req, m), existing, reserved));
    } else {
        let m = choose|m: nat| 2 <= m < n0 && !is_taken(alternative(req, m), existing, reserved);
        lemma_least_free(req, existing, reserved, m);
    }
}

/// The first free alternative, when there is one, is not taken.
proof fn lemma_first_free_is_free(req: TargetView, existing: Seq<TargetView>, reserved: Seq<TargetView>)
    ensures
        first_free_alternative(req, existing, reserved) matches Some(t) ==> !is_taken(t, existing, reserved),
{
    if exists|n: nat| 2 <= n <= u64::MAX && !is_taken(alternative(req, n), existing, reserved) {
        let n0 = choose|n: nat| 2 <= n <= u64::MAX && !is_taken(alternative(req, n), existing, reserved);
        lemma_least_free(req, existing, reserved, n0);
    }
}

/// The destination chosen for one request is never among the earlier destinations;
/// unless replacing, it is never a file on disk; and when preserving both files there
/// always is one (given fewer than `u64::MAX` names in play).
proof fn lemma_plan_one(
    req: TargetView,
    existing: Seq<TargetView>,
    reserved: Seq<TargetView>,
    policy: CollisionPolicy,
)
    ensures
        plan_one(req, existing, reserved, policy) matches Some(t) ==> !reserved.contains(t),
        policy != CollisionPolicy::Replace ==> (plan_one(req, existing, reserved, policy) matches Some(t) ==> !existing.contains(t)),
        (policy == CollisionPolicy::PreserveBoth && existing.len() + reserved.len() + 3 <= u64::MAX)
            ==> plan_one(req, existing, reserved, policy) is Some,
{
    if existing.len() + reserved.len() + 3 <= u64::MAX {
        lemma_alternative_exists(req, existing, reserved);
    }
    lemma_first_free_is_free(req, existing, reserved);
}

/// The length of a plan and each entry, in terms of the plan of the earlier requests.
proof fn lemma_plan_entry(requested: Seq<TargetView>, existing: Seq<TargetView>, policy: CollisionPolicy, i: int)
    requires
        0 <= i < requested.len(),
    ensures
        spec_plan(requested, existing, policy).len() == requested.len(),
        spec_plan(requested, existing, policy).take(i) == spec_plan(requested.take(i), existing, policy),
        spec_plan(requested, existing, policy)[i] == plan_one(
            requested[i],
            existing,
            reserved_of(spec_plan(requested.take(i), existing, policy)),
            policy,
        ),
    decreases requested.len(),
{
    let earlier = spec_plan(requested.drop_last(), existing, policy);
    if i == requested.len() - 1 {
        assert(requested.take(i) =~= requested.drop_last());
        if i > 0 {
            lemma_plan_entry(requested.drop_last(), existing, policy, i - 1);
        }
        assert(spec_plan(requested, existing, policy).take(i) =~= earlier);
    } else {
        lemma_plan_entry(requested.drop_last(), existing, policy, i);
        assert(requested.drop_last().take(i) =~= requested.take(i));
        assert(requested.drop_last()[i] == requested[i]);
        assert(spec_plan(requested, existing, policy).take(i) =~= earlier.take(i));
    }
}

/// Every planned destination is among the reserved targets of the plan, and there are
/// no more reserved targets than plan entries.
proof fn lemma_reserved_of(plan: Seq<Option<TargetView>>, i: int)
    requires
        0 <= i < plan.len(),
    ensures
        reserved_of(plan).len() <= plan.len(),
        plan[i] matches Some(t) ==> reserved_of(plan).contains(t),
    decreases plan.len(),
{
    let rest = plan.drop_last();
    if i < plan.len() - 1 {
        lemma_reserved_of(rest, i);
        assert(rest[i] == plan[i]);
        if let Some(t) = plan[i] {
            let r = reserved_of(rest);
            let j = choose|j: int| 0 <= j < r.len() && r[j] == t;
            match plan.last() {
                Some(u) => { assert(r.push(u)[j] == t); },
                None => {},
            }
        }
    } else {
        if rest.len() > 0 {
            lemma_reserved_of(rest, 0);
        }
        if let Some(t) = plan[i] {
            assert(reserved_of(plan) == reserved_of(rest).push(t));
            assert(reserved_of(plan)[reserved_of(rest).len() as int] == t);
        }
    }
}

/// Two outputs of one export never share a destination.
pub proof fn law_planned_destinations_are_distinct(
    requested: Seq<TargetView>,
    existing: Seq<TargetView>,
    policy: CollisionPolicy,
    i: int,
    j: int,
)
    requires
        0 <= i < j < requested.len(),
        spec_plan(requested, existing, policy)[i] is Some,
        spec_plan(requested, existing, policy)[j] is Some,
    ensures
        spec_plan(requested, existing, policy)[i] != spec_plan(requested, existing, policy)[j],
{
    let plan = spec_plan(requested, existing, policy);
    lemma_plan_entry(requested, existing, policy, j);
    let earlier = spec_plan(requested.take(j), existing, policy);
    lemma_plan_one(requested[j], existing, reserved_of(earlier), policy);
    assert(earlier[i] == plan[i]);
    lemma_reserved_of(earlier, i);
}

/// Unless replacing is asked for, no destination is a file already on disk.
pub proof fn law_plan_never_overwrites_unless_replacing(
    requested: Seq<TargetView>,
    existing: Seq<TargetView>,
    policy: CollisionPolicy,
    i: int,
)
    requires
        0 <= i < requested.len(),
        policy != CollisionPolicy::Replace,
    ensures
        spec_plan(requested, existing, policy)[i] matches Some(t) ==> !existing.contains(t),
{
    lemma_plan_entry(requested, existing, policy, i);
    lemma_plan_one(
        requested[i],
        existing,
        reserved_of(spec_plan(requested.take(i), existing, policy)),
        policy,
    );
}

/// When both files are preserved, every output gets a destination.
pub proof fn law_preserve_both_places_every_output(
    requested: Seq<TargetView>,
    existing: Seq<TargetView>,
    i: int,
)
    requires
        0 <= i < requested.len(),
        existing.len() + requested.len() + 3 <= u64::MAX,
    ensures
        spec_plan(requested, existing, CollisionPolicy::PreserveBoth)[i] is Some,
{
    let policy = CollisionPolicy::PreserveBoth;
    lemma_plan_entry(requested, existing, policy, i);
    let earlier = spec_plan(requested.take(i), existing, policy);
    if i > 0 {
        lemma_plan_entry(requested.take(i), existing, policy, 0);
        lemma_reserved_of(earlier, 0);
    }
    lemma_plan_one(requested[i], existing, reserved_of(earlier), policy);
}

/// When skipping, a destination is always the requested target itself, and an output is
/// skipped exactly when its target is taken.
pub proof fn law_skip_keeps_requested_targets(
    requested: Seq<TargetView>,
    existing: Seq<TargetView>,
    i: int,
)
    requires
        0 <= i < requested.len(),
    ensures
        ({
            let plan = spec_plan(requested, existing, CollisionPolicy::Skip);
            let earlier = reserved_of(spec_plan(requested.take(i), existing, CollisionPolicy::Skip));
            &&& plan[i] matches Some(t) ==> t == requested[i]
            &&& plan[i] is None <==> is_taken(requested[i], existing, earlier)
        }),
{
    lemma_plan_entry(requested, existing, CollisionPolicy::Skip, i);
}

/// Whether `t` occurs in `list`.
fn contains_target(list: &Vec<OutputTarget>, t: &OutputTarget) -> (found: bool)
    ensures
        found == target_views(list@).contains(t.tv()),
{
    let mut i: usize = 0;
    while i < list.len()
        invariant
            i <= list.len(),
            forall|j: int| 0 <= j < i ==> target_views(list@)[j] != t.tv(),
        decreases list.len() - i,
    {
        if list[i].directory == t.directory && list[i].file_name == t.file_name {
            assert(target_views(list@)[i as int] == t.tv());
            return true;
        }
        i = i + 1;
    }
    proof {
        if target_views(list@).contains(t.tv()) {
            let j = choose|j: int|
                0 <= j < target_views(list@).len() && target_views(list@)[j] == t.tv();
            assert(target_views(list@)[j] != t.tv());
        }
    }
    false
}

/// The dot that starts the extension of `chars`, if any.
fn find_extension_dot(chars: &Vec<char>) -> (dot: Option<usize>)
    ensures
        match dot {
            Some(i) => 0 < i < chars.len() && extension_dot(chars@) == Some(i as int),
            None => extension_dot(chars@) is None,
        },
{
    let mut i: usize = chars.len();
    while i > 1
        invariant
            i <= chars.len(),
            forall|j: int| i <= j < chars.len() ==> chars@[j] != '.',
        decreases i,
    {
        if chars[i - 1] == '.' {
            let k = i - 1;
            proof {
                let w = choose|w: int|
                    0 < w < chars@.len() && chars@[w] == '.' && forall|j: int|
                        w < j < chars@.len() ==> chars@[j] != '.';
                assert(0 < k < chars@.len() && chars@[k as int] == '.' && forall|j: int|
                    k < j < chars@.len() ==> chars@[j] != '.');
                if w < k {
                    assert(chars@[k as int] != '.');
                } else if w > k {
                    assert(chars@[w] != '.');
                }
            }
            return Some(k);
        }
        i = i - 1;
    }
    proof {
        if exists|w: int| 0 < w < chars@.len() && chars@[w] == '.' {
            let w = choose|w: int| 0 < w < chars@.len() && chars@[w] == '.';
            assert(chars@[w] != '.');
        }
    }
    None
}

/// The characters of `chars` in `[from, to)`.
fn chars_range(chars: &Vec<char>, from: usize, to: usize) -> (part: Vec<char>)
    requires
        from <= to <= chars.len(),
    ensures
        part@ == chars@.subrange(from as int, to as int),
{
    let mut part: Vec<char> = Vec::new();
    let mut i: usize = from;
    while i < to
        invariant
            from <= i <= to <= chars.len(),
            part@ == chars@.subrange(from as int, i as int),
        decreases to - i,
    {
        part.push(chars[i]);
        i = i + 1;
        assert(part@ =~= chars@.subrange(from as int, i as int));
    }
    part
}

/// Stem and extension of a file name (see [`name_stem`] and [`name_extension`]).
fn split_name(name: &str) -> (parts: (Vec<char>, Option<Vec<char>>))
    ensures
        parts.0@ == name_stem(name@),
        match parts.1 {
            Some(e) => name_extension(name@) == Some(e@),
            None => name_extension(name@) is None,
        },
{
    let chars = chars_of(name);
    let is_parent = chars.len() == 2 && chars[0] == '.' && chars[1] == '.';
    proof {
        reveal_strlit("..");
        if is_parent {
            assert(chars@ =~= ".."@);
        }
        if chars@ == ".."@ {
            assert(chars@[0] == '.' && chars@[1] == '.');
        }
    }
    let (stem, ext) = if is_parent {
        (Vec::new(), None)
    } else {
        match find_extension_dot(&chars) {
            Some(dot) => {
                let stem = chars_range(&chars, 0, dot);
                let ext = chars_range(&chars, dot + 1, chars.len());
                assert(stem@ =~= chars@.take(dot as int));
                assert(ext@ =~= chars@.skip(dot + 1));
                (stem, Some(ext))
            },
            None => (chars, None),
        }
    };
    if stem.len() == 0 {
        let image = chars_of("image");
        (image, ext)
    } else {
        (stem, ext)
    }
}

/// The numbered alternative name built from a stem and extension.
fn numbered(stem: &Vec<char>, ext: &Option<Vec<char>>, n: u64) -> (name: String)
    ensures
        name@ == match ext {
            Some(e) => stem@ + seq!['-'] + decimal(n as nat) + seq!['.'] + e@,
            None => stem@ + seq!['-'] + decimal(n as nat),
        },
{
    let mut name = String::new();
    push_chars(&mut name, stem);
    push_char(&mut name, '-');
    push_decimal(&mut name, n);
    match ext {
        Some(e) => {
            push_char(&mut name, '.');
            push_chars(&mut name, e);
            assert(name@ =~= stem@ + seq!['-'] + decimal(n as nat) + seq!['.'] + e@);
        },
        None => {
            assert(name@ =~= stem@ + seq!['-'] + decimal(n as nat));
        },
    }
    name
}

/// The first free numbered alternative of `req`.
fn unique_destination(
    req: &OutputTarget,
    existing: &Vec<OutputTarget>,
    reserved: &Vec<OutputTarget>,
) -> (dest: Option<OutputTarget>)
    ensures
        match dest {
            Some(t) => first_free_alternative(
                req.tv(),
                target_views(existing@),
                target_views(reserved@),
            ) == Some(t.tv()),
            None => first_free_alternative(
                req.tv(),
                target_views(existing@),
                target_views(reserved@),
            ) is None,
        },
{
    let ghost ex = target_views(existing@);
    let ghost rs = target_views(reserved@);
    let (stem, ext) = split_name(req.file_name.as_str());
    let mut n: u64 = 2;
    loop
        invariant
            2 <= n,
            ex == target_views(existing@),
            rs == target_views(reserved@),
            stem@ == name_stem(req.file_name@),
            match ext {
                Some(e) => name_extension(req.file_name@) == Some(e@),
                None => name_extension(req.file_name@) is None,
            },
            forall|m: nat| 2 <= m < n ==> is_taken(alternative(req.tv(), m), ex, rs),
        decreases u64::MAX - n,
    {
        let candidate = OutputTarget {
            directory: req.directory.clone(),
            file_name: numbered(&stem, &ext, n),
        };
        assert(candidate.tv() == alternative(req.tv(), n as nat));
        if !contains_target(existing, &candidate) && !contains_target(reserved, &candidate) {
            proof {
                let w = choose|w: nat|
                    2 <= w <= u64::MAX && !is_taken(alternative(req.tv(), w), ex, rs) && forall|
                        m: nat,
                    |
                        2 <= m < w ==> is_taken(alternative(req.tv(), m), ex, rs);
                assert(2 <= n <= u64::MAX && !is_taken(alternative(req.tv(), n as nat), ex, rs)
                    && forall|m: nat|
                    2 <= m < n ==> is_taken(alternative(req.tv(), m), ex, rs));
                if w < n {
                    assert(is_taken(alternative(req.tv(), w), ex, rs));
                } else if w > n {
                    assert(is_taken(alternative(req.tv(), n as nat), ex, rs));
                }
            }
            return Some(candidate);
        }
        if n == u64::MAX {
            proof {
                if exists|w: nat|
                    2 <= w <= u64::MAX && !is_taken(alternative(req.tv(), w), ex, rs) {
                    let w = choose|w: nat|
                        2 <= w <= u64::MAX && !is_taken(alternative(req.tv(), w), ex, rs);
                    if w < n {
                        assert(is_taken(alternative(req.tv(), w), ex, rs));
                    }
                }
            }
            return None;
        }
        n = n + 1;
    }
}

/// Plans the destination of every requested target, in order: `existing` lists the
/// files present on disk. Each planned destination is either the requested target or
/// its first free numbered alternative (see [`spec_plan`]).
pub fn resolve_destinations(
    requested: &Vec<OutputTarget>,
    existing: &Vec<OutputTarget>,
    policy: CollisionPolicy,
) -> (plan: Vec<Option<OutputTarget>>)
    ensures
        plan_views(plan@) == spec_plan(target_views(requested@), target_views(existing@), policy),
{
    let ghost req = target_views(requested@);
    let ghost ex = target_views(existing@);
    let mut plan: Vec<Option<OutputTarget>> = Vec::new();
    let mut reserved: Vec<OutputTarget> = Vec::new();
    let mut i: usize = 0;
    while i < requested.len()
        invariant
            i <= requested.len(),
            req == target_views(requested@),
            ex == target_views(existing@),
            plan_views(plan@) == spec_plan(req.take(i as int), ex, policy),
            target_views(reserved@) == reserved_of(plan_views(plan@)),
        decreases requested.len() - i,
    {
        let r = &requested[i];
        let on_disk = contains_target(existing, r);
        let planned = contains_target(&reserved, r);
        let dest = match policy {
            CollisionPolicy::Skip => if on_disk || planned {
                None
            } else {
                Some(r.duplicate())
            },
            CollisionPolicy::Replace => if !planned {
                Some(r.duplicate())
            } else {
                unique_destination(r, existing, &reserved)
            },
            CollisionPolicy::PreserveBoth => if !(on_disk || planned) {
                Some(r.duplicate())
            } else {
                unique_destination(r, existing, &reserved)
            },
        };
        let ghost dest_view = match &dest {
            Some(t) => Some(t.tv()),
            None => None,
        };
        assert(dest_view == plan_one(req[i as int], ex, reserved_of(plan_views(plan@)), policy));
        let ghost old_plan = plan@;
        let ghost old_reserved = reserved@;
        match &dest {
            Some(t) => {
                reserved.push(t.duplicate());
            },
            None => {},
        }
        plan.push(dest);
        proof {
            assert(req.take(i + 1).drop_last() =~= req.take(i as int));
            assert(plan_views(plan@) =~= plan_views(old_plan).push(dest_view));
            assert(plan_views(plan@).drop_last() =~= plan_views(old_plan));
            match dest_view {
                Some(t) => {
                    assert(target_views(reserved@) =~= target_views(old_reserved).push(t));
                },
                None => {
                    assert(target_views(reserved@) =~= target_views(old_reserved));
                },
            }
        }
        i = i + 1;
    }
    assert(req.take(i as int) =~= req);
    plan
}

} // verus!
