use vstd::prelude::*;

verus! {

/// `VK_DESCRIPTOR_POOL_CREATE_FREE_DESCRIPTOR_SET_BIT`.
pub const DESCRIPTOR_POOL_CREATE_FREE_DESCRIPTOR_SET: u32 = 0x1;

/// How many descriptors of one type a pool holds (`VkDescriptorPoolSize`).
#[derive(Clone, Copy, Debug, PartialEq, Eq, Structural)]
pub struct DescriptorPoolSize {
    pub ty: i32,
    pub descriptor_count: u32,
}

/// The properties a descriptor pool is created with. The defaults mean nothing.
#[derive(Clone, Debug)]
pub struct DescriptorPoolProperties {
    pub flags: u32,
    pub max_sets: u32,
    pub pool_sizes: Vec<DescriptorPoolSize>,
}

impl Default for DescriptorPoolProperties {
    fn default() -> (r: Self)
        ensures
            r.flags == 0,
            r.max_sets == 0,
            r.pool_sizes@ == Seq::<DescriptorPoolSize>::empty(),
    {
        DescriptorPoolProperties { flags: 0, max_sets: 0, pool_sizes: Vec::new() }
    }
}

impl DescriptorPoolProperties {
    /// No flags, the given set limit and pool sizes.
    pub fn new_default(max_sets: u32, pool_sizes: Vec<DescriptorPoolSize>) -> (r: Self)
        ensures
            r.flags == 0,
            r.max_sets == max_sets,
            r.pool_sizes@ == pool_sizes@,
    {
        DescriptorPoolProperties { max_sets, pool_sizes, ..DescriptorPoolProperties::default() }
    }

    /// Whether sets allocated from the pool may be freed one by one (else only
    /// the pool frees them, when it is reset or destroyed).
    pub fn frees_individual_sets(&self) -> (r: bool)
        ensures
            r == (self.flags & DESCRIPTOR_POOL_CREATE_FREE_DESCRIPTOR_SET
                == DESCRIPTOR_POOL_CREATE_FREE_DESCRIPTOR_SET),
    {
        self.flags & DESCRIPTOR_POOL_CREATE_FREE_DESCRIPTOR_SET == DESCRIPTOR_POOL_CREATE_FREE_DESCRIPTOR_SET
    }
}

/// One binding of a descriptor set layout, as far as pools and layouts read it
/// (`VkDescriptorSetLayoutBinding` without immutable samplers).
#[derive(Clone, Copy, Debug, PartialEq, Eq, Structural)]
pub struct DescriptorSetLayoutBinding {
    pub binding: u32,
    pub descriptor_type: i32,
    pub descriptor_count: u32,
    pub stage_flags: u32,
}

/// The flags and bindings of a descriptor set layout.
#[derive(Clone, Debug)]
pub struct DescriptorSetLayoutProperties {
    pub flags: u32,
    pub bindings: Vec<DescriptorSetLayoutBinding>,
}

impl Default for DescriptorSetLayoutProperties {
    fn default() -> (r: Self)
        ensures
            r.flags == 0,
            r.bindings@ == Seq::<DescriptorSetLayoutBinding>::empty(),
    {
        DescriptorSetLayoutProperties { flags: 0, bindings: Vec::new() }
    }
}

impl DescriptorSetLayoutProperties {
    /// No flags, the given bindings.
    pub fn new_default(bindings: Vec<DescriptorSetLayoutBinding>) -> (r: Self)
        ensures
            r.flags == 0,
            r.bindings@ == bindings@,
    {
        DescriptorSetLayoutProperties { flags: 0, bindings }
    }
}

/// The sum of the descriptor counts of the bindings.
pub open spec fn total_descriptor_count(bindings: Seq<DescriptorSetLayoutBinding>) -> nat
    decreases bindings.len(),
{
    if bindings.len() == 0 {
        0
    } else {
        total_descriptor_count(bindings.drop_last()) + bindings.last().descriptor_count as nat
    }
}

/// The sum of the descriptor counts of the bindings of the given descriptor type.
pub open spec fn descriptors_of_type(bindings: Seq<DescriptorSetLayoutBinding>, ty: i32) -> nat
    decreases bindings.len(),
{
    if bindings.len() == 0 {
        0
    } else {
        descriptors_of_type(bindings.drop_last(), ty) + if bindings.last().descriptor_type == ty {
            bindings.last().descriptor_count as nat
        } else {
            0nat
        }
    }
}

/// The bindings of all layouts, one layout after the other.
pub open spec fn all_bindings(layouts: Seq<Seq<DescriptorSetLayoutBinding>>) -> Seq<
    DescriptorSetLayoutBinding,
>
    decreases layouts.len(),
{
    if layouts.len() == 0 {
        Seq::empty()
    } else {
        all_bindings(layouts.drop_last()) + layouts.last()
    }
}

/// The binding lists of the layouts.
pub open spec fn layout_bindings(layouts: Seq<DescriptorSetLayoutProperties>) -> Seq<
    Seq<DescriptorSetLayoutBinding>,
> {
    layouts.map_values(|l: DescriptorSetLayoutProperties| l.bindings@)
}

/// A pool for `max_sets` sets whose layouts have the given bindings between
/// them: sets allocated from it can be freed one by one (the free-descriptor-set
/// flag, and no other), the given set limit, and one pool size for each
/// descriptor type that the bindings ask descriptors of, holding the sum of the
/// descriptor counts of the bindings of that type (never zero).
pub open spec fn pool_fits_bindings(
    bindings: Seq<DescriptorSetLayoutBinding>,
    max_sets: u32,
    r: DescriptorPoolProperties,
) -> bool {
    &&& r.flags == DESCRIPTOR_POOL_CREATE_FREE_DESCRIPTOR_SET
    &&& r.max_sets == max_sets
    &&& forall|i: int, j: int|
        0 <= i < j < r.pool_sizes@.len() ==> #[trigger] r.pool_sizes@[i].ty
            != #[trigger] r.pool_sizes@[j].ty
    &&& forall|i: int|
        0 <= i < r.pool_sizes@.len() ==> (#[trigger] r.pool_sizes@[i]).descriptor_count
            == descriptors_of_type(bindings, r.pool_sizes@[i].ty) && r.pool_sizes@[i].descriptor_count > 0
    &&& forall|k: int|
        0 <= k < bindings.len() && bindings[k].descriptor_count > 0 ==> has_pool_size(
            r.pool_sizes@,
            #[trigger] bindings[k].descriptor_type,
        )
}

/// Some pool size is for the given descriptor type.
pub open spec fn has_pool_size(pool_sizes: Seq<DescriptorPoolSize>, ty: i32) -> bool {
    exists|i: int| 0 <= i < pool_sizes.len() && #[trigger] pool_sizes[i].ty == ty
}

proof fn lemma_take_push<A>(s: Seq<A>, i: int)
    requires
        0 <= i < s.len(),
    ensures
        s.take(i + 1) == s.take(i).push(s[i]),
        s.take(i + 1).drop_last() == s.take(i),
        s.take(i + 1).last() == s[i],
{
    assert(s.take(i + 1) =~= s.take(i).push(s[i]));
    assert(s.take(i + 1).drop_last() =~= s.take(i));
}

proof fn lemma_total_prefix(bindings: Seq<DescriptorSetLayoutBinding>, i: int)
    requires
        0 <= i <= bindings.len(),
    ensures
        total_descriptor_count(bindings.take(i)) <= total_descriptor_count(bindings),
    decreases bindings.len(),
{
    if i < bindings.len() {
        assert(bindings.len() > 0);
        if i == bindings.len() - 1 {
            assert(bindings.take(i) =~= bindings.drop_last());
        } else {
            lemma_total_prefix(bindings.drop_last(), i);
            assert(bindings.drop_last().take(i) =~= bindings.take(i));
        }
    } else {
        assert(bindings.take(i) =~= bindings);
    }
}

proof fn lemma_type_count_bound(bindings: Seq<DescriptorSetLayoutBinding>, ty: i32)
    ensures
        descriptors_of_type(bindings, ty) <= total_descriptor_count(bindings),
    decreases bindings.len(),
{
    if bindings.len() > 0 {
        lemma_type_count_bound(bindings.drop_last(), ty);
    }
}

/// Pool properties for `max_sets` sets whose layouts have the given bindings
/// between them (see `pool_fits_bindings`). The descriptor counts add up in a
/// `u32`.
pub fn descriptor_pool_properties_for_bindings(bindings: &Vec<DescriptorSetLayoutBinding>, max_sets: u32) -> (r:
    DescriptorPoolProperties)
    requires
        total_descriptor_count(bindings@) <= u32::MAX,
    ensures
        pool_fits_bindings(bindings@, max_sets, r),
{
    let mut total: u32 = 0;
    let mut pool_sizes: Vec<DescriptorPoolSize> = Vec::new();
    let mut i: usize = 0;
    while i < bindings.len()
        invariant
            i <= bindings@.len(),
            total_descriptor_count(bindings@) <= u32::MAX,
            total == total_descriptor_count(bindings@.take(i as int)),
            forall|a: int, b: int|
                0 <= a < b < pool_sizes@.len() ==> #[trigger] pool_sizes@[a].ty
                    != #[trigger] pool_sizes@[b].ty,
            forall|a: int|
                0 <= a < pool_sizes@.len() ==> (#[trigger] pool_sizes@[a]).descriptor_count
                    == descriptors_of_type(bindings@.take(i as int), pool_sizes@[a].ty)
                    && pool_sizes@[a].descriptor_count > 0,
            forall|k: int|
                0 <= k < i && bindings@[k].descriptor_count > 0 ==> has_pool_size(
                    pool_sizes@,
                    #[trigger] bindings@[k].descriptor_type,
                ),
        decreases bindings@.len() - i,
    {
        let binding = bindings[i];
        proof {
            lemma_take_push(bindings@, i as int);
            lemma_total_prefix(bindings@, i as int + 1);
        }
        total = total + binding.descriptor_count;
        let ty = binding.descriptor_type;
        let mut k: usize = 0;
        while k < pool_sizes.len() && pool_sizes[k].ty != ty
            invariant
                k <= pool_sizes@.len(),
                forall|a: int| 0 <= a < k ==> pool_sizes@[a].ty != ty,
            decreases pool_sizes@.len() - k,
        {
            k = k + 1;
        }
        let ghost old_sizes = pool_sizes@;
        let ghost prefix = bindings@.take(i as int);
        let ghost next = bindings@.take(i as int + 1);
        assert(next.drop_last() == prefix && next.last() == binding);
        if binding.descriptor_count == 0 {
            assert forall|a: int| 0 <= a < pool_sizes@.len() implies (#[trigger] pool_sizes@[a]).descriptor_count
                == descriptors_of_type(next, pool_sizes@[a].ty) && pool_sizes@[a].descriptor_count > 0 by {}
            assert forall|kk: int| 0 <= kk < i + 1 && bindings@[kk].descriptor_count > 0 implies has_pool_size(
                pool_sizes@,
                #[trigger] bindings@[kk].descriptor_type,
            ) by {}
        } else if k < pool_sizes.len() {
            let entry = pool_sizes[k];
            assert(entry.ty == ty);
            proof {
                lemma_type_count_bound(next, ty);
            }
            pool_sizes.set(
                k,
                DescriptorPoolSize { ty, descriptor_count: entry.descriptor_count + binding.descriptor_count },
            );
            assert forall|a: int| 0 <= a < pool_sizes@.len() implies (#[trigger] pool_sizes@[a]).descriptor_count
                == descriptors_of_type(next, pool_sizes@[a].ty) && pool_sizes@[a].descriptor_count > 0 by {
                if a != k {
                    assert(old_sizes[a].ty != ty);
                }
            }
            assert forall|kk: int| 0 <= kk < i + 1 && bindings@[kk].descriptor_count > 0 implies has_pool_size(
                pool_sizes@,
                #[trigger] bindings@[kk].descriptor_type,
            ) by {
                if kk < i {
                    assert(has_pool_size(old_sizes, bindings@[kk].descriptor_type));
                    let a = choose|a: int|
                        0 <= a < old_sizes.len() && #[trigger] old_sizes[a].ty
                            == bindings@[kk].descriptor_type;
                    assert(pool_sizes@[a].ty == old_sizes[a].ty);
                } else {
                    assert(pool_sizes@[k as int].ty == bindings@[kk].descriptor_type);
                }
            }
        } else {
            pool_sizes.push(DescriptorPoolSize { ty, descriptor_count: binding.descriptor_count });
            assert(descriptors_of_type(prefix, ty) == 0) by {
                if descriptors_of_type(prefix, ty) != 0 {
                    lemma_type_occurs(prefix, ty);
                    let kk = choose|kk: int|
                        0 <= kk < prefix.len() && prefix[kk].descriptor_type == ty
                            && prefix[kk].descriptor_count > 0;
                    assert(prefix[kk] == bindings@[kk]);
                    assert(has_pool_size(old_sizes, bindings@[kk].descriptor_type));
                    let a = choose|a: int|
                        0 <= a < old_sizes.len() && #[trigger] old_sizes[a].ty
                            == bindings@[kk].descriptor_type;
                }
            }
            assert forall|a: int| 0 <= a < pool_sizes@.len() implies (#[trigger] pool_sizes@[a]).descriptor_count
                == descriptors_of_type(next, pool_sizes@[a].ty) && pool_sizes@[a].descriptor_count > 0 by {
                if a < old_sizes.len() {
                    assert(old_sizes[a].ty != ty);
                }
            }
            assert forall|kk: int| 0 <= kk < i + 1 && bindings@[kk].descriptor_count > 0 implies has_pool_size(
                pool_sizes@,
                #[trigger] bindings@[kk].descriptor_type,
            ) by {
                if kk < i {
                    assert(has_pool_size(old_sizes, bindings@[kk].descriptor_type));
                    let a = choose|a: int|
                        0 <= a < old_sizes.len() && #[trigger] old_sizes[a].ty
                            == bindings@[kk].descriptor_type;
                    assert(pool_sizes@[a].ty == old_sizes[a].ty);
                } else {
                    assert(pool_sizes@[old_sizes.len() as int].ty == bindings@[kk].descriptor_type);
                }
            }
        }
        i = i + 1;
    }
    assert(bindings@.take(bindings@.len() as int) =~= bindings@);
    DescriptorPoolProperties { flags: DESCRIPTOR_POOL_CREATE_FREE_DESCRIPTOR_SET, max_sets, pool_sizes }
}

/// Pool properties for one set of the given layout (see `pool_fits_bindings`).
pub fn descriptor_pool_properties_for_layout(layout_properties: &DescriptorSetLayoutProperties) -> (r:
    DescriptorPoolProperties)
    requires
        total_descriptor_count(layout_properties.bindings@) <= u32::MAX,
    ensures
        pool_fits_bindings(layout_properties.bindings@, 1, r),
{
    descriptor_pool_properties_for_bindings(&layout_properties.bindings, 1)
}

/// Pool properties for one set of each of the given layouts: a set limit of the
/// number of layouts, and the bindings of all layouts together sizing the pool
/// (see `pool_fits_bindings`).
pub fn descriptor_pool_properties_for_layouts(layout_properties: &Vec<DescriptorSetLayoutProperties>) -> (r:
    DescriptorPoolProperties)
    requires
        total_descriptor_count(all_bindings(layout_bindings(layout_properties@))) <= u32::MAX,
        layout_properties@.len() <= u32::MAX,
    ensures
        pool_fits_bindings(
            all_bindings(layout_bindings(layout_properties@)),
            layout_properties@.len() as u32,
            r,
        ),
{
    let ghost lb = layout_bindings(layout_properties@);
    let mut all: Vec<DescriptorSetLayoutBinding> = Vec::new();
    let mut i: usize = 0;
    while i < layout_properties.len()
        invariant
            i <= layout_properties@.len(),
            lb == layout_bindings(layout_properties@),
            all@ == all_bindings(lb.take(i as int)),
        decreases layout_properties@.len() - i,
    {
        let bindings = &layout_properties[i].bindings;
        assert(lb[i as int] == bindings@);
        let mut j: usize = 0;
        while j < bindings.len()
            invariant
                j <= bindings@.len(),
                all@ == all_bindings(lb.take(i as int)) + bindings@.take(j as int),
            decreases bindings@.len() - j,
        {
            all.push(bindings[j]);
            assert(bindings@.take(j + 1) =~= bindings@.take(j as int).push(bindings@[j as int]));
            assert(all@ =~= all_bindings(lb.take(i as int)) + bindings@.take(j + 1));
            j = j + 1;
        }
        proof {
            lemma_take_push(lb, i as int);
            assert(bindings@.take(bindings@.len() as int) =~= bindings@);
        }
        i = i + 1;
    }
    assert(lb.take(lb.len() as int) =~= lb);
    descriptor_pool_properties_for_bindings(&all, layout_properties.len() as u32)
}

proof fn lemma_type_occurs(bindings: Seq<DescriptorSetLayoutBinding>, ty: i32)
    requires
        descriptors_of_type(bindings, ty) > 0,
    ensures
        exists|k: int|
            0 <= k < bindings.len() && bindings[k].descriptor_type == ty && bindings[k].descriptor_count > 0,
    decreases bindings.len(),
{
    let last = bindings.last();
    if last.descriptor_type == ty && last.descriptor_count > 0 {
        assert(bindings[bindings.len() - 1] == last);
    } else {
        lemma_type_occurs(bindings.drop_last(), ty);
        let k = choose|k: int|
            0 <= k < bindings.drop_last().len() && bindings.drop_last()[k].descriptor_type == ty
                && bindings.drop_last()[k].descriptor_count > 0;
        assert(bindings[k] == bindings.drop_last()[k]);
    }
}

/// The sum of the descriptor counts of the pool sizes.
pub open spec fn pool_size_total(pool_sizes: Seq<DescriptorPoolSize>) -> nat
    decreases pool_sizes.len(),
{
    if pool_sizes.len() == 0 {
        0
    } else {
        pool_size_total(pool_sizes.drop_last()) + pool_sizes.last().descriptor_count as nat
    }
}

/// The descriptor types of the pool sizes.
pub open spec fn pool_size_types(pool_sizes: Seq<DescriptorPoolSize>) -> Set<i32>
    decreases pool_sizes.len(),
{
    if pool_sizes.len() == 0 {
        Set::empty()
    } else {
        pool_size_types(pool_sizes.drop_last()).insert(pool_sizes.last().ty)
    }
}

/// The sum of the descriptor counts of the bindings whose type is in `types`.
pub open spec fn descriptors_with_type_in(bindings: Seq<DescriptorSetLayoutBinding>, types: Set<i32>) -> nat
    decreases bindings.len(),
{
    if bindings.len() == 0 {
        0
    } else {
        descriptors_with_type_in(bindings.drop_last(), types) + if types.contains(
            bindings.last().descriptor_type,
        ) {
            bindings.last().descriptor_count as nat
        } else {
            0nat
        }
    }
}

proof fn lemma_with_type_in_insert(bindings: Seq<DescriptorSetLayoutBinding>, types: Set<i32>, ty: i32)
    requires
        !types.contains(ty),
    ensures
        descriptors_with_type_in(bindings, types.insert(ty)) == descriptors_with_type_in(bindings, types)
            + descriptors_of_type(bindings, ty),
    decreases bindings.len(),
{
    if bindings.len() > 0 {
        lemma_with_type_in_insert(bindings.drop_last(), types, ty);
    }
}

proof fn lemma_with_type_in_all(bindings: Seq<DescriptorSetLayoutBinding>, types: Set<i32>)
    requires
        forall|k: int|
            0 <= k < bindings.len() && bindings[k].descriptor_count > 0 ==> types.contains(
                #[trigger] bindings[k].descriptor_type,
            ),
    ensures
        descriptors_with_type_in(bindings, types) == total_descriptor_count(bindings),
    decreases bindings.len(),
{
    if bindings.len() > 0 {
        let rest = bindings.drop_last();
        assert forall|k: int| 0 <= k < rest.len() && rest[k].descriptor_count > 0 implies types.contains(
            #[trigger] rest[k].descriptor_type,
        ) by {
            assert(rest[k] == bindings[k]);
        }
        lemma_with_type_in_all(rest, types);
        assert(bindings.last() == bindings[bindings.len() - 1]);
    }
}

proof fn lemma_pool_prefix_total(
    bindings: Seq<DescriptorSetLayoutBinding>,
    pool_sizes: Seq<DescriptorPoolSize>,
)
    requires
        forall|i: int, j: int|
            0 <= i < j < pool_sizes.len() ==> #[trigger] pool_sizes[i].ty != #[trigger] pool_sizes[j].ty,
        forall|i: int|
            0 <= i < pool_sizes.len() ==> (#[trigger] pool_sizes[i]).descriptor_count
                == descriptors_of_type(bindings, pool_sizes[i].ty),
    ensures
        pool_size_total(pool_sizes) == descriptors_with_type_in(bindings, pool_size_types(pool_sizes)),
        forall|t: i32|
            pool_size_types(pool_sizes).contains(t) <==> exists|i: int|
                0 <= i < pool_sizes.len() && #[trigger] pool_sizes[i].ty == t,
    decreases pool_sizes.len(),
{
    if pool_sizes.len() == 0 {
        assert(descriptors_with_type_in(bindings, Set::empty()) == 0) by {
            lemma_with_type_in_none(bindings);
        }
    } else {
        let rest = pool_sizes.drop_last();
        let last = pool_sizes.last();
        assert forall|i: int, j: int| 0 <= i < j < rest.len() implies #[trigger] rest[i].ty
            != #[trigger] rest[j].ty by {
            assert(rest[i] == pool_sizes[i] && rest[j] == pool_sizes[j]);
        }
        assert forall|i: int| 0 <= i < rest.len() implies (#[trigger] rest[i]).descriptor_count
            == descriptors_of_type(bindings, rest[i].ty) by {
            assert(rest[i] == pool_sizes[i]);
        }
        lemma_pool_prefix_total(bindings, rest);
        assert(!pool_size_types(rest).contains(last.ty)) by {
            if pool_size_types(rest).contains(last.ty) {
                let i = choose|i: int| 0 <= i < rest.len() && #[trigger] rest[i].ty == last.ty;
                assert(pool_sizes[i].ty == pool_sizes[pool_sizes.len() - 1].ty);
            }
        }
        lemma_with_type_in_insert(bindings, pool_size_types(rest), last.ty);
        assert(last == pool_sizes[pool_sizes.len() - 1]);
        assert forall|t: i32| pool_size_types(pool_sizes).contains(t) <==> exists|i: int|
            0 <= i < pool_sizes.len() && #[trigger] pool_sizes[i].ty == t by {
            if pool_size_types(pool_sizes).contains(t) {
                if t == last.ty {
                    assert(pool_sizes[pool_sizes.len() - 1].ty == t);
                } else {
                    let i = choose|i: int| 0 <= i < rest.len() && #[trigger] rest[i].ty == t;
                    assert(pool_sizes[i] == rest[i]);
                }
            }
            if exists|i: int| 0 <= i < pool_sizes.len() && #[trigger] pool_sizes[i].ty == t {
                let i = choose|i: int| 0 <= i < pool_sizes.len() && #[trigger] pool_sizes[i].ty == t;
                if i < rest.len() {
                    assert(rest[i] == pool_sizes[i]);
                }
            }
        }
    }
}

proof fn lemma_with_type_in_none(bindings: Seq<DescriptorSetLayoutBinding>)
    ensures
        descriptors_with_type_in(bindings, Set::empty()) == 0,
    decreases bindings.len(),
{
    if bindings.len() > 0 {
        lemma_with_type_in_none(bindings.drop_last());
    }
}

/// A pool sized for some bindings holds every descriptor they ask for, and no
/// more: its pool size counts add up to the total descriptor count of the
/// bindings.
pub proof fn lemma_pool_holds_every_descriptor(
    bindings: Seq<DescriptorSetLayoutBinding>,
    max_sets: u32,
    r: DescriptorPoolProperties,
)
    requires
        pool_fits_bindings(bindings, max_sets, r),
    ensures
        pool_size_total(r.pool_sizes@) == total_descriptor_count(bindings),
{
    let sizes = r.pool_sizes@;
    lemma_pool_prefix_total(bindings, sizes);
    assert forall|k: int| 0 <= k < bindings.len() && bindings[k].descriptor_count > 0 implies pool_size_types(
        sizes,
    ).contains(#[trigger] bindings[k].descriptor_type) by {
        assert(has_pool_size(sizes, bindings[k].descriptor_type));
        let i = choose|i: int| 0 <= i < sizes.len() && #[trigger] sizes[i].ty == bindings[k].descriptor_type;
    }
    lemma_with_type_in_all(bindings, pool_size_types(sizes));
}

proof fn lemma_descriptors_of_pair(b1: DescriptorSetLayoutBinding, b2: DescriptorSetLayoutBinding, ty: i32)
    ensures
        descriptors_of_type(seq![b1], ty) == if b1.descriptor_type == ty {
            b1.descriptor_count as nat
        } else {
            0
        },
        descriptors_of_type(seq![b1, b2], ty) == descriptors_of_type(seq![b1], ty) + if b2.descriptor_type
            == ty {
            b2.descriptor_count as nat
        } else {
            0
        },
{
    assert(seq![b1].drop_last() =~= Seq::<DescriptorSetLayoutBinding>::empty());
    assert(seq![b1, b2].drop_last() =~= seq![b1]);
    reveal_with_fuel(descriptors_of_type, 2);
}

/// One binding that asks for descriptors gets exactly one pool size: its
/// descriptor type with its descriptor count.
pub proof fn lemma_single_binding_pool(b: DescriptorSetLayoutBinding, max_sets: u32, r: DescriptorPoolProperties)
    requires
        pool_fits_bindings(seq![b], max_sets, r),
        b.descriptor_count > 0,
    ensures
        r.pool_sizes@ == seq![DescriptorPoolSize { ty: b.descriptor_type, descriptor_count: b.descriptor_count }],
{
    let bs = seq![b];
    let sizes = r.pool_sizes@;
    assert(bs.drop_last() =~= Seq::<DescriptorSetLayoutBinding>::empty());
    assert(bs[0] == b);
    assert(has_pool_size(sizes, bs[0].descriptor_type));
    let i = choose|i: int| 0 <= i < sizes.len() && #[trigger] sizes[i].ty == b.descriptor_type;
    assert forall|j: int| 0 <= j < sizes.len() implies #[trigger] sizes[j].ty == b.descriptor_type by {
        lemma_descriptors_of_pair(b, b, sizes[j].ty);
        assert(sizes[j].descriptor_count == descriptors_of_type(bs, sizes[j].ty));
    }
    if sizes.len() > 1 {
        assert(sizes[0].ty == b.descriptor_type && sizes[1].ty == b.descriptor_type);
        assert(sizes[0].ty != sizes[1].ty);
    }
    assert(sizes.len() == 1);
    lemma_descriptors_of_pair(b, b, b.descriptor_type);
    assert(sizes[0].descriptor_count == descriptors_of_type(bs, b.descriptor_type));
    assert(sizes =~= seq![DescriptorPoolSize { ty: b.descriptor_type, descriptor_count: b.descriptor_count }]);
}

/// Two bindings of the same descriptor type share one pool size, which holds
/// the sum of their descriptor counts.
pub proof fn lemma_same_type_bindings_pool(
    b1: DescriptorSetLayoutBinding,
    b2: DescriptorSetLayoutBinding,
    max_sets: u32,
    r: DescriptorPoolProperties,
)
    requires
        pool_fits_bindings(seq![b1, b2], max_sets, r),
        b1.descriptor_type == b2.descriptor_type,
        b1.descriptor_count > 0,
    ensures
        r.pool_sizes@.len() == 1,
        r.pool_sizes@[0].ty == b1.descriptor_type,
        r.pool_sizes@[0].descriptor_count == b1.descriptor_count + b2.descriptor_count,
{
    let bs = seq![b1, b2];
    let sizes = r.pool_sizes@;
    assert(bs.drop_last() =~= seq![b1]);
    assert(seq![b1].drop_last() =~= Seq::<DescriptorSetLayoutBinding>::empty());
    assert(bs[0] == b1);
    assert(has_pool_size(sizes, bs[0].descriptor_type));
    let i = choose|i: int| 0 <= i < sizes.len() && #[trigger] sizes[i].ty == b1.descriptor_type;
    assert forall|j: int| 0 <= j < sizes.len() implies #[trigger] sizes[j].ty == b1.descriptor_type by {
        lemma_descriptors_of_pair(b1, b2, sizes[j].ty);
        assert(sizes[j].descriptor_count == descriptors_of_type(bs, sizes[j].ty));
    }
    if sizes.len() > 1 {
        assert(sizes[0].ty == b1.descriptor_type && sizes[1].ty == b1.descriptor_type);
        assert(sizes[0].ty != sizes[1].ty);
    }
    assert(sizes.len() == 1);
    lemma_descriptors_of_pair(b1, b2, b1.descriptor_type);
    assert(sizes[0].descriptor_count == descriptors_of_type(bs, b1.descriptor_type));
}

} // verus!
