//! Which owned Vulkan objects exist after each stage of setup, and the order
//! in which they are given back.
use vstd::prelude::*;

verus! {

/// An object that the graphics context owns and must destroy.
#[derive(PartialEq, Eq, Structural, Clone, Copy, Debug)]
pub enum Resource {
    Instance,
    Sink,
    Surface,
    Device,
}

/// The order in which setup creates the owned objects.
pub open spec fn creation_order() -> Seq<Resource> {
    seq![Resource::Instance, Resource::Sink, Resource::Surface, Resource::Device]
}

/// Whether `res` is alive once the first `created` objects have been made.
pub open spec fn is_live(created: nat, res: Resource) -> bool {
    exists|i: int| 0 <= i < created && i < 4 && creation_order()[i] == res
}

/// The release sequence for the first `created` objects: the sink, then the
/// surface, then the logical device, and the instance last, each only if it
/// exists.
pub open spec fn release_plan(created: nat) -> Seq<Resource> {
    if created == 0 {
        seq![]
    } else if created == 1 {
        seq![Resource::Instance]
    } else if created == 2 {
        seq![Resource::Sink, Resource::Instance]
    } else if created == 3 {
        seq![Resource::Sink, Resource::Surface, Resource::Instance]
    } else {
        seq![Resource::Sink, Resource::Surface, Resource::Device, Resource::Instance]
    }
}

/// The objects to destroy, in order, once the first `created` objects exist.
pub fn release_order(created: usize) -> (r: Vec<Resource>)
    requires
        created <= 4,
    ensures
        r@ == release_plan(created as nat),
{
    let mut r: Vec<Resource> = Vec::new();
    if created >= 2 {
        r.push(Resource::Sink);
    }
    if created >= 3 {
        r.push(Resource::Surface);
    }
    if created >= 4 {
        r.push(Resource::Device);
    }
    if created >= 1 {
        r.push(Resource::Instance);
    }
    proof {
        if created == 0 {
            assert(r@ =~= release_plan(0));
        } else if created == 1 {
            assert(r@ =~= release_plan(1));
        } else if created == 2 {
            assert(r@ =~= release_plan(2));
        } else if created == 3 {
            assert(r@ =~= release_plan(3));
        } else {
            assert(r@ =~= release_plan(4));
        }
    }
    r
}

/// Every object that exists is released exactly once and nothing else is;
/// the instance goes last, so the sink, the surface and the logical device
/// are each released before it.
pub proof fn lemma_release_plan_sound(created: nat)
    requires
        created <= 4,
    ensures
        release_plan(created).no_duplicates(),
        forall|res: Resource| #[trigger] release_plan(created).contains(res) <==> is_live(created, res),
        created > 0 ==> release_plan(created).last() == Resource::Instance,
        forall|i: int| 0 <= i < release_plan(created).len() - 1
            ==> release_plan(created)[i] != Resource::Instance,
{
    let p = release_plan(created);
    let o = creation_order();
    assert forall|res: Resource| #[trigger] p.contains(res) <==> is_live(created, res) by {
        if p.contains(res) {
            let k = choose|k: int| 0 <= k < p.len() && p[k] == res;
            match res {
                Resource::Instance => assert(o[0] == res),
                Resource::Sink => assert(o[1] == res),
                Resource::Surface => assert(o[2] == res),
                Resource::Device => assert(o[3] == res),
            }
        }
        if is_live(created, res) {
            let i = choose|i: int| 0 <= i < created && i < 4 && o[i] == res;
            if created == 1 {
                assert(p[0] == res);
            } else if created == 2 {
                assert(i == 0 ==> p[1] == res);
                assert(i == 1 ==> p[0] == res);
            } else if created == 3 {
                assert(i == 0 ==> p[2] == res);
                assert(i == 1 ==> p[0] == res);
                assert(i == 2 ==> p[1] == res);
            } else {
                assert(i == 0 ==> p[3] == res);
                assert(i == 1 ==> p[0] == res);
                assert(i == 2 ==> p[1] == res);
                assert(i == 3 ==> p[2] == res);
            }
        }
    }
}

} // verus!
