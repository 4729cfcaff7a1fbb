//! The registry of reloadable pipelines and the delivery of recompiled shader
//! modules to the pipelines that were built from the changed file.

use crate::utils::paths::{extension_of, file_name, file_name_of, has_extension};
use crate::utils::shader_compiler::CompilerError;
use crate::utils::ContiniousHashMap;
use vstd::prelude::*;

verus! {

/// A pipeline that can rebuild itself in place from a freshly compiled shader
/// module, keeping whatever it holds that does not come from the shader.
///
/// `D` is the device that builds pipeline objects and `M` the compiled module.
pub trait ReloadablePipeline<D, M>: Sized {
    /// The pipeline as it stands once it has been rebuilt from `module`.
    spec fn rebuilt(&self, device: &D, module: &M) -> Self;

    /// Rebuilds the pipeline from `module`.
    fn reload(&mut self, device: &D, module: &M)
        ensures
            *final(self) == old(self).rebuilt(device, module),
    ;
}

/// A pipeline of one of the two kinds that a registry holds side by side: one
/// that draws, built from a vertex and a fragment entry point, or one that
/// computes, built from a single entry point.
#[derive(Debug)]
pub enum Pipeline<R, C> {
    Render(R),
    Compute(C),
}

impl<R, C, D, M> ReloadablePipeline<D, M> for Pipeline<R, C> where
    R: ReloadablePipeline<D, M>,
    C: ReloadablePipeline<D, M>,
 {
    /// The pipeline inside, rebuilt; its kind stays.
    open spec fn rebuilt(&self, device: &D, module: &M) -> Self {
        match self {
            Pipeline::Render(render) => Pipeline::Render(render.rebuilt(device, module)),
            Pipeline::Compute(compute) => Pipeline::Compute(compute.rebuilt(device, module)),
        }
    }

    fn reload(&mut self, device: &D, module: &M) {
        match self {
            Pipeline::Render(render) => render.reload(device, module),
            Pipeline::Compute(compute) => compute.reload(device, module),
        }
    }
}

/// Names one registered pipeline; it stays good for as long as the watcher
/// that gave it out.
#[derive(Debug, Clone, Copy, PartialEq, Eq, Structural)]
pub struct PipelineHandle {
    index: usize,
}

impl PipelineHandle {
    /// Position of the pipeline among all registered ones, in the order of
    /// registration.
    pub closed spec fn spec_index(&self) -> int {
        self.index as int
    }

    /// Position of the pipeline among all registered ones, in the order of
    /// registration.
    pub fn index(&self) -> (i: usize)
        ensures
            i == self.spec_index(),
    {
        self.index
    }
}

/// A compiled module on its way to the pipelines of the file it came from.
#[derive(Debug)]
pub struct ReloadEvent<M> {
    /// Canonical path of the shader file.
    pub path: String,
    /// What the compiler made of the file.
    pub module: M,
}

/// What a registry holds, as plain sequences: every pipeline in the order of
/// registration, and beside each the canonical path it was registered under.
pub struct Registry<T> {
    pub targets: Seq<T>,
    pub paths: Seq<Seq<char>>,
}

impl<T> Registry<T> {
    /// Every pipeline has its path.
    pub open spec fn wf(self) -> bool {
        self.targets.len() == self.paths.len()
    }

    /// The registry with nothing in it.
    pub open spec fn empty() -> Self {
        Registry { targets: Seq::empty(), paths: Seq::empty() }
    }

    /// Whether `handle` names a pipeline of this registry.
    pub open spec fn holds(self, handle: int) -> bool {
        0 <= handle < self.targets.len()
    }

    /// Whether `handle` names a pipeline registered under `path`.
    pub open spec fn registered_under(self, handle: int, path: Seq<char>) -> bool {
        self.holds(handle) && self.paths[handle] == path
    }

    /// The registry after `target` was registered under `path`; its handle is
    /// the number of pipelines registered before.
    pub open spec fn register(self, path: Seq<char>, target: T) -> Self {
        Registry { targets: self.targets.push(target), paths: self.paths.push(path) }
    }

    /// The registry after a module compiled from `path` was delivered: every
    /// pipeline registered under that path rebuilt once, the others as they
    /// were.
    pub open spec fn reload<D, M>(self, path: Seq<char>, device: &D, module: &M) -> Self where
        T: ReloadablePipeline<D, M>,
     {
        Registry {
            targets: Seq::new(
                self.targets.len(),
                |i: int|
                    if self.paths[i] == path {
                        self.targets[i].rebuilt(device, module)
                    } else {
                        self.targets[i]
                    },
            ),
            paths: self.paths,
        }
    }

    /// The registry after the first `n` of `events` were delivered in order.
    pub open spec fn deliver<D, M>(self, device: &D, events: Seq<ReloadEvent<M>>, n: int) -> Self where
        T: ReloadablePipeline<D, M>,

        decreases n,
    {
        if n <= 0 {
            self
        } else {
            self.deliver(device, events, n - 1).reload(
                events[n - 1].path@,
                device,
                &events[n - 1].module,
            )
        }
    }
}

/// The pipelines of a running demo, filed under the shader files they were
/// built from.
pub struct Watcher<T> {
    hash_dump: ContiniousHashMap<PipelineHandle>,
    targets: Vec<T>,
    paths: Ghost<Seq<Seq<char>>>,
}

impl<T> View for Watcher<T> {
    type V = Registry<T>;

    closed spec fn view(&self) -> Registry<T> {
        Registry { targets: self.targets@, paths: self.paths@ }
    }
}

impl<T> Watcher<T> {
    /// The index files each pipeline once, under the path it was registered
    /// with, and lists the pipelines of a path in the order of registration.
    pub closed spec fn wf(&self) -> bool {
        &&& self.hash_dump.wf()
        &&& self@.wf()
        &&& forall|k: Seq<char>, j: int|
            self.hash_dump@.contains_key(k) && 0 <= j < self.hash_dump@[k].len()
                ==> self@.registered_under((#[trigger] self.hash_dump@[k][j]).index as int, k)
        &&& forall|k: Seq<char>, i: int, j: int|
            self.hash_dump@.contains_key(k) && 0 <= i < j < self.hash_dump@[k].len()
                ==> (#[trigger] self.hash_dump@[k][i]).index < (
            #[trigger] self.hash_dump@[k][j]).index
        &&& forall|h: int|
            self@.holds(h) ==> self.hash_dump@.contains_key(#[trigger] self@.paths[h])
                && self.listed(self@.paths[h], h)
    }

    /// What a well-formed watcher holds is a well-formed registry, so that
    /// whatever is proved of registries holds of it.
    pub proof fn lemma_view_wf(&self)
        requires
            self.wf(),
        ensures
            self@.wf(),
    {
    }

    spec fn listed(&self, path: Seq<char>, handle: int) -> bool {
        exists|j: int|
            0 <= j < self.hash_dump@[path].len() && (
            #[trigger] self.hash_dump@[path][j]).index == handle
    }

    /// A watcher with no pipeline registered.
    pub fn new() -> (watcher: Self)
        ensures
            watcher.wf(),
            watcher@ == Registry::<T>::empty(),
    {
        Watcher { hash_dump: ContiniousHashMap::new(), targets: Vec::new(), paths: Ghost(Seq::empty()) }
    }

    /// Number of registered pipelines.
    pub fn len(&self) -> (n: usize)
        ensures
            n == self@.targets.len(),
    {
        self.targets.len()
    }

    /// Files `pipeline` under the canonical path of the shader it was built
    /// from, and hands back the handle under which the caller finds it again.
    pub fn register(&mut self, path: String, pipeline: T) -> (handle: PipelineHandle)
        requires
            old(self).wf(),
        ensures
            final(self).wf(),
            final(self)@ == old(self)@.register(path@, pipeline),
            handle.spec_index() == old(self)@.targets.len(),
            final(self)@.registered_under(handle.spec_index(), path@),
    {
        let handle = PipelineHandle { index: self.targets.len() };
        let ghost before = *self;
        let ghost key = path@;
        self.hash_dump.push_value(path, handle);
        self.targets.push(pipeline);
        self.paths = Ghost(self.paths@.push(key));
        proof {
            let after = *self;
            let n = before.targets.len() as int;
            let bucket = before.hash_dump.values_of(key).push(handle);
            assert(after.hash_dump@ == before.hash_dump@.insert(key, bucket));
            assert forall|k: Seq<char>, j: int|
                after.hash_dump@.contains_key(k) && 0 <= j < after.hash_dump@[k].len()
                    implies after@.registered_under(
                (#[trigger] after.hash_dump@[k][j]).index as int,
                k,
            ) by {
                if k == key && j == bucket.len() - 1 {
                } else {
                    assert(before.hash_dump@.contains_key(k));
                    assert(after.hash_dump@[k][j] == before.hash_dump@[k][j]);
                    assert(before@.registered_under(before.hash_dump@[k][j].index as int, k));
                }
            }
            assert forall|k: Seq<char>, i: int, j: int|
                after.hash_dump@.contains_key(k) && 0 <= i < j < after.hash_dump@[k].len()
                    implies (#[trigger] after.hash_dump@[k][i]).index < (
            #[trigger] after.hash_dump@[k][j]).index by {
                if k == key {
                    assert(before.hash_dump@.contains_key(k));
                    assert(after.hash_dump@[k][i] == before.hash_dump@[k][i]);
                    assert(before@.registered_under(before.hash_dump@[k][i].index as int, k));
                    if j < bucket.len() - 1 {
                        assert(after.hash_dump@[k][j] == before.hash_dump@[k][j]);
                    }
                } else {
                    assert(after.hash_dump@[k][i] == before.hash_dump@[k][i]);
                    assert(after.hash_dump@[k][j] == before.hash_dump@[k][j]);
                }
            }
            assert forall|h: int| after@.holds(h) implies after.hash_dump@.contains_key(
                #[trigger] after@.paths[h],
            ) && after.listed(after@.paths[h], h) by {
                if h == n {
                    assert(after.hash_dump@[key][bucket.len() - 1].index == h);
                } else {
                    let p = before@.paths[h];
                    assert(before@.holds(h));
                    assert(before.listed(p, h));
                    let j = choose|j: int|
                        0 <= j < before.hash_dump@[p].len() && (
                        #[trigger] before.hash_dump@[p][j]).index == h;
                    assert(after.hash_dump@[p][j].index == h);
                }
            }
        }
        handle
    }

    /// The pipeline that `handle` names.
    pub fn get(&self, handle: PipelineHandle) -> (pipeline: &T)
        requires
            self@.holds(handle.spec_index()),
        ensures
            *pipeline == self@.targets[handle.spec_index()],
    {
        &self.targets[handle.index]
    }

    /// The handles of the pipelines registered under `path`, in the order of
    /// registration; none where no pipeline was built from that file.
    pub fn lookup(&self, path: &String) -> (handles: Vec<PipelineHandle>)
        requires
            self.wf(),
        ensures
            forall|h: int|
                self@.registered_under(h, path@) <==> exists|j: int|
                    0 <= j < handles.len() && (#[trigger] handles[j]).spec_index() == h,
            forall|i: int, j: int|
                0 <= i < j < handles.len() ==> (#[trigger] handles[i]).spec_index() < (
                #[trigger] handles[j]).spec_index(),
    {
        let mut handles: Vec<PipelineHandle> = Vec::new();
        match self.hash_dump.get(path) {
            Some(bucket) => {
                let mut j: usize = 0;
                while j < bucket.len()
                    invariant
                        j <= bucket.len(),
                        handles@ == bucket@.take(j as int),
                    decreases bucket.len() - j,
                {
                    handles.push(bucket[j]);
                    proof {
                        assert(bucket@.take(j + 1) =~= bucket@.take(j as int).push(bucket[j as int]));
                    }
                    j += 1;
                }
                proof {
                    assert(bucket@.take(bucket.len() as int) =~= bucket@);
                    assert forall|h: int| self@.registered_under(h, path@) implies exists|j: int|
                        0 <= j < handles.len() && (#[trigger] handles[j]).spec_index() == h by {
                        assert(self.listed(path@, h));
                    }
                }
            },
            None => {},
        }
        handles
    }
}

impl<T> Watcher<T> {
    /// Delivers a module compiled from the file at `path`: rebuilds every
    /// pipeline registered under that path, once each, and touches no other.
    /// A path that no pipeline was registered under changes nothing.
    pub fn register_shader_change<D, M>(&mut self, path: &String, device: &D, shader: &M) where
        T: ReloadablePipeline<D, M>,

        requires
            old(self).wf(),
        ensures
            final(self).wf(),
            final(self)@ == old(self)@.reload(path@, device, shader),
    {
        let handles = self.lookup(path);
        let ghost before = *self;
        let mut j: usize = 0;
        while j < handles.len()
            invariant
                j <= handles.len(),
                before.wf(),
                self.hash_dump == before.hash_dump,
                self.paths == before.paths,
                self.targets.len() == before.targets.len(),
                forall|h: int|
                    before@.registered_under(h, path@) <==> exists|i: int|
                        0 <= i < handles.len() && (#[trigger] handles[i]).spec_index() == h,
                forall|a: int, b: int|
                    0 <= a < b < handles.len() ==> (#[trigger] handles[a]).spec_index() < (
                    #[trigger] handles[b]).spec_index(),
                forall|h: int|
                    0 <= h < self.targets.len() ==> #[trigger] self.targets[h] == if exists|i: int|
                        0 <= i < j && (#[trigger] handles[i]).spec_index() == h {
                        before.targets[h].rebuilt(device, shader)
                    } else {
                        before.targets[h]
                    },
            decreases handles.len() - j,
        {
            let index = handles[j].index;
            proof {
                assert(before@.registered_under(handles[j as int].spec_index(), path@));
                assert forall|i: int| 0 <= i < j implies (#[trigger] handles[i]).spec_index()
                    != index by {
                    assert(handles[i].spec_index() < handles[j as int].spec_index());
                }
            }
            let ghost earlier = self.targets@;
            self.targets[index].reload(device, shader);
            proof {
                assert forall|h: int| 0 <= h < self.targets.len() implies #[trigger] self.targets[h]
                    == if exists|i: int| 0 <= i < j + 1 && (#[trigger] handles[i]).spec_index() == h {
                    before.targets[h].rebuilt(device, shader)
                } else {
                    before.targets[h]
                } by {
                    if h == index {
                        assert(handles[j as int].spec_index() == h);
                    } else {
                        assert(self.targets[h] == earlier[h]);
                        if exists|i: int| 0 <= i < j + 1 && (#[trigger] handles[i]).spec_index() == h {
                            let i = choose|i: int|
                                0 <= i < j + 1 && (#[trigger] handles[i]).spec_index() == h;
                            assert(i < j);
                        }
                    }
                }
            }
            j += 1;
        }
        proof {
            let after = before@.reload(path@, device, shader);
            assert forall|h: int| 0 <= h < self.targets.len() implies self@.targets[h]
                == after.targets[h] by {
                let touched = exists|i: int|
                    0 <= i < j && (#[trigger] handles[i]).spec_index() == h;
                assert(touched == before@.registered_under(h, path@));
                assert(before@.registered_under(h, path@) == (before@.paths[h] == path@));
            }
            assert(self@.targets =~= after.targets);
        }
    }

    /// Delivers every event of one tick, oldest first. A tick with no event
    /// leaves every pipeline as it was.
    pub fn apply_events<D, M>(&mut self, device: &D, events: &Vec<ReloadEvent<M>>) where
        T: ReloadablePipeline<D, M>,

        requires
            old(self).wf(),
        ensures
            final(self).wf(),
            final(self)@ == old(self)@.deliver(device, events@, events.len() as int),
            events.len() == 0 ==> final(self)@ == old(self)@,
    {
        let mut n: usize = 0;
        while n < events.len()
            invariant
                n <= events.len(),
                self.wf(),
                self@ == old(self)@.deliver(device, events@, n as int),
            decreases events.len() - n,
        {
            self.register_shader_change(&events[n].path, device, &events[n].module);
            n += 1;
        }
    }
}

/// Whether rebuilding `target` from `module` a second time changes nothing.
pub open spec fn rebuilds_alike<T: ReloadablePipeline<D, M>, D, M>(
    target: T,
    device: &D,
    module: &M,
) -> bool {
    target.rebuilt(device, module).rebuilt(device, module) == target.rebuilt(device, module)
}

/// Where each pipeline of a file rebuilds alike from one module, delivering
/// that module for the file twice leaves the registry as one delivery does.
pub proof fn lemma_reload_twice<T: ReloadablePipeline<D, M>, D, M>(
    registry: Registry<T>,
    path: Seq<char>,
    device: &D,
    module: &M,
)
    requires
        registry.wf(),
        forall|h: int|
            registry.registered_under(h, path) ==> rebuilds_alike(
                #[trigger] registry.targets[h],
                device,
                module,
            ),
    ensures
        registry.reload(path, device, module).reload(path, device, module) == registry.reload(
            path,
            device,
            module,
        ),
{
    let once = registry.reload(path, device, module);
    let twice = once.reload(path, device, module);
    assert forall|i: int| 0 <= i < once.targets.len() implies twice.targets[i]
        == once.targets[i] by {
        if registry.paths[i] == path {
            assert(registry.registered_under(i, path));
            assert(rebuilds_alike(registry.targets[i], device, module));
        }
    }
    assert(twice.targets =~= once.targets);
}

/// A pipeline of either kind rebuilds alike where the pipeline inside does.
pub proof fn lemma_kind_rebuilds_alike<R, C, D, M>(pipeline: Pipeline<R, C>, device: &D, module: &M) where
    R: ReloadablePipeline<D, M>,
    C: ReloadablePipeline<D, M>,

    requires
        match pipeline {
            Pipeline::Render(render) => rebuilds_alike(render, device, module),
            Pipeline::Compute(compute) => rebuilds_alike(compute, device, module),
        },
    ensures
        rebuilds_alike(pipeline, device, module),
        pipeline.rebuilt(device, module) is Render <==> pipeline is Render,
{
}

/// The registry knows a file by its canonical path alone. Whatever the file
/// system gives as the canonical form of a path, a pipeline registered
/// through one way of writing a file's path is rebuilt by a delivery that
/// names the file in another way, where the canonical forms of the two are
/// the same.
pub proof fn lemma_canonical_paths_collide<T: ReloadablePipeline<D, M>, D, M>(
    registry: Registry<T>,
    canonical: spec_fn(Seq<char>) -> Seq<char>,
    registered_as: Seq<char>,
    delivered_as: Seq<char>,
    target: T,
    device: &D,
    module: &M,
)
    requires
        registry.wf(),
        canonical(registered_as) == canonical(delivered_as),
    ensures
        ({
            let after = registry.register(canonical(registered_as), target).reload(
                canonical(delivered_as),
                device,
                module,
            );
            let handle = registry.targets.len() as int;
            after.registered_under(handle, canonical(delivered_as)) && after.targets[handle]
                == target.rebuilt(device, module)
        }),
{
}

/// Two pipelines registered under one path are both rebuilt, once each, by one
/// delivery for that path, and no pipeline registered under another path is
/// rebuilt with them.
pub proof fn lemma_fan_out<T: ReloadablePipeline<D, M>, D, M>(
    registry: Registry<T>,
    path: Seq<char>,
    first: T,
    second: T,
    device: &D,
    module: &M,
)
    requires
        registry.wf(),
    ensures
        ({
            let both = registry.register(path, first).register(path, second);
            let after = both.reload(path, device, module);
            let h = registry.targets.len() as int;
            &&& both.registered_under(h, path)
            &&& both.registered_under(h + 1, path)
            &&& after.targets[h] == first.rebuilt(device, module)
            &&& after.targets[h + 1] == second.rebuilt(device, module)
            &&& forall|other: int|
                both.holds(other) && both.paths[other] != path ==> #[trigger] after.targets[other]
                    == both.targets[other]
        }),
{
}

/// A delivery for one path rebuilds no pipeline that is registered under
/// another.
pub proof fn lemma_no_cross_talk<T: ReloadablePipeline<D, M>, D, M>(
    registry: Registry<T>,
    delivered: Seq<char>,
    other: Seq<char>,
    handle: int,
    device: &D,
    module: &M,
)
    requires
        registry.wf(),
        registry.registered_under(handle, other),
        delivered != other,
    ensures
        registry.reload(delivered, device, module).targets[handle] == registry.targets[handle],
        registry.reload(delivered, device, module).registered_under(handle, other),
{
}

/// A delivery for a path that no pipeline is registered under changes nothing.
pub proof fn lemma_lookup_miss<T: ReloadablePipeline<D, M>, D, M>(
    registry: Registry<T>,
    path: Seq<char>,
    device: &D,
    module: &M,
)
    requires
        registry.wf(),
        forall|h: int| !registry.registered_under(h, path),
    ensures
        registry.reload(path, device, module) == registry,
{
    let after = registry.reload(path, device, module);
    assert forall|i: int| 0 <= i < registry.targets.len() implies after.targets[i]
        == registry.targets[i] by {
        assert(!registry.registered_under(i, path));
    }
    assert(after.targets =~= registry.targets);
}

/// However many modules are delivered, every pipeline stays registered, and
/// under the path it was registered with.
pub proof fn lemma_deliver_keeps_paths<T: ReloadablePipeline<D, M>, D, M>(
    registry: Registry<T>,
    device: &D,
    events: Seq<ReloadEvent<M>>,
    n: int,
)
    requires
        registry.wf(),
        n <= events.len(),
    ensures
        registry.deliver(device, events, n).wf(),
        registry.deliver(device, events, n).paths == registry.paths,
        registry.deliver(device, events, n).targets.len() == registry.targets.len(),
    decreases n,
{
    if n > 0 {
        lemma_deliver_keeps_paths(registry, device, events, n - 1);
    }
}

/// Whether a rebuild of `target` leaves nothing behind of the module it was
/// built from before: rebuilt from one module and then from another, it
/// stands as if it had been rebuilt from the second alone.
pub open spec fn forgets_modules<T: ReloadablePipeline<D, M>, D, M>(target: T, device: &D) -> bool {
    forall|first: M, second: M|
        #![trigger target.rebuilt(device, &first).rebuilt(device, &second)]
        target.rebuilt(device, &first).rebuilt(device, &second) == target.rebuilt(
            device,
            &second,
        )
}

/// A pipeline that forgets modules rebuilds alike from any module.
pub proof fn lemma_forgetful_rebuilds_alike<T: ReloadablePipeline<D, M>, D, M>(
    target: T,
    device: &D,
    module: &M,
)
    requires
        forgets_modules(target, device),
    ensures
        rebuilds_alike(target, device, module),
{
    let m: M = *module;
    assert(target.rebuilt(device, &m).rebuilt(device, &m) == target.rebuilt(device, &m));
}

/// After any number of deliveries a pipeline that forgets modules stands as
/// it was registered, or as rebuilt from one of the modules delivered.
proof fn lemma_delivered_state<T: ReloadablePipeline<D, M>, D, M>(
    registry: Registry<T>,
    device: &D,
    events: Seq<ReloadEvent<M>>,
    n: int,
    handle: int,
)
    requires
        registry.wf(),
        registry.holds(handle),
        0 <= n <= events.len(),
        forgets_modules(registry.targets[handle], device),
    ensures
        registry.deliver(device, events, n).targets[handle] == registry.targets[handle]
            || exists|j: int|
            0 <= j < n && registry.deliver(device, events, n).targets[handle]
                == registry.targets[handle].rebuilt(device, &#[trigger] events[j].module),
    decreases n,
{
    if n > 0 {
        lemma_delivered_state(registry, device, events, n - 1, handle);
        lemma_deliver_keeps_paths(registry, device, events, n - 1);
        let before = registry.deliver(device, events, n - 1);
        let target = registry.targets[handle];
        if before.paths[handle] == events[n - 1].path@ {
            if before.targets[handle] != target {
                let j = choose|j: int|
                    0 <= j < n - 1 && before.targets[handle] == target.rebuilt(
                        device,
                        &#[trigger] events[j].module,
                    );
                assert(target.rebuilt(device, &events[j].module).rebuilt(
                    device,
                    &events[n - 1].module,
                ) == target.rebuilt(device, &events[n - 1].module));
            } else {
            }
            assert(registry.deliver(device, events, n).targets[handle] == before.targets[handle].rebuilt(
                device,
                &events[n - 1].module,
            ));
        } else {
            assert(registry.deliver(device, events, n).targets[handle] == before.targets[handle]);
        }
    }
}

/// The last delivery for a file wins: where event `last` is the last among
/// the first `n` that names the file of a pipeline, and the pipeline forgets
/// modules, the pipeline stands after those `n` deliveries as rebuilt from
/// the module of that event alone, whatever was delivered before.
pub proof fn lemma_last_event_wins<T: ReloadablePipeline<D, M>, D, M>(
    registry: Registry<T>,
    device: &D,
    events: Seq<ReloadEvent<M>>,
    n: int,
    last: int,
    handle: int,
)
    requires
        registry.wf(),
        registry.holds(handle),
        0 <= last < n <= events.len(),
        events[last].path@ == registry.paths[handle],
        forall|j: int| last < j < n ==> (#[trigger] events[j]).path@ != registry.paths[handle],
        forgets_modules(registry.targets[handle], device),
    ensures
        registry.deliver(device, events, n).targets[handle] == registry.targets[handle].rebuilt(
            device,
            &events[last].module,
        ),
    decreases n,
{
    lemma_deliver_keeps_paths(registry, device, events, n - 1);
    let before = registry.deliver(device, events, n - 1);
    let target = registry.targets[handle];
    if last == n - 1 {
        lemma_delivered_state(registry, device, events, n - 1, handle);
        if before.targets[handle] != target {
            let j = choose|j: int|
                0 <= j < n - 1 && before.targets[handle] == target.rebuilt(
                    device,
                    &#[trigger] events[j].module,
                );
            assert(target.rebuilt(device, &events[j].module).rebuilt(
                device,
                &events[last].module,
            ) == target.rebuilt(device, &events[last].module));
        }
        assert(registry.deliver(device, events, n).targets[handle] == before.targets[handle].rebuilt(
            device,
            &events[last].module,
        ));
    } else {
        assert(events[n - 1].path@ != registry.paths[handle]);
        lemma_last_event_wins(registry, device, events, n - 1, last, handle);
        assert(registry.deliver(device, events, n).targets[handle] == before.targets[handle]);
    }
}

/// Extension of the files that hold shader source.
pub const SHADER_EXTENSION: &'static str = "wgsl";

/// Name under which a shader is reported whose path ends without a file name.
pub const UNNAMED_SHADER: &'static str = "wgsl";

/// How a file was opened or closed.
#[derive(Debug, Clone, Copy, PartialEq, Eq, Structural)]
pub enum AccessMode {
    Any,
    Execute,
    Read,
    Write,
    Other,
}

/// What kind of access to a file was seen.
#[derive(Debug, Clone, Copy, PartialEq, Eq, Structural)]
pub enum AccessKind {
    Any,
    Read,
    Open(AccessMode),
    Close(AccessMode),
    Other,
}

/// What happened to the files of a file system event.
#[derive(Debug, Clone, Copy, PartialEq, Eq, Structural)]
pub enum EventKind {
    Any,
    Access(AccessKind),
    Create,
    Modify,
    Remove,
    Other,
}

/// A file system event: what happened, and to which files.
#[derive(Debug)]
pub struct FileEvent {
    pub kind: EventKind,
    pub paths: Vec<String>,
}

/// Whether `kind` says that a file was closed after it had been open for
/// writing: the one event after which a shader is compiled again.
pub open spec fn is_write_completion(kind: EventKind) -> bool {
    kind == EventKind::Access(AccessKind::Close(AccessMode::Write))
}

/// Whether `path` leads to a file with the extension of shader source.
pub open spec fn is_shader_path(path: Seq<char>) -> bool {
    extension_of(path) == Some(SHADER_EXTENSION@)
}

/// The paths that are compiled after `event`: its shader files, in the order
/// in which the event lists them, where it reports the end of a write, and
/// none where it reports anything else.
pub open spec fn shaders_to_compile(event: FileEvent) -> Seq<String> {
    if is_write_completion(event.kind) {
        event.paths@.filter(|p: String| is_shader_path(p@))
    } else {
        Seq::empty()
    }
}

/// The paths that are compiled after `event`.
pub fn changed_shaders(event: &FileEvent) -> (paths: Vec<String>)
    ensures
        paths@ == shaders_to_compile(*event),
{
    let mut paths: Vec<String> = Vec::new();
    match event.kind {
        EventKind::Access(AccessKind::Close(AccessMode::Write)) => {
            let ghost wanted = |p: String| is_shader_path(p@);
            let mut i: usize = 0;
            proof {
                reveal(Seq::filter);
            }
            while i < event.paths.len()
                invariant
                    i <= event.paths.len(),
                    wanted == (|p: String| is_shader_path(p@)),
                    paths@ == event.paths@.take(i as int).filter(wanted),
                decreases event.paths.len() - i,
            {
                let is_shader = has_extension(event.paths[i].as_str(), SHADER_EXTENSION);
                proof {
                    reveal(Seq::filter);
                    let next = event.paths@.take(i + 1);
                    assert(next.drop_last() =~= event.paths@.take(i as int));
                    assert(next.last() == event.paths@[i as int]);
                    assert(is_shader == wanted(event.paths@[i as int]));
                }
                if is_shader {
                    paths.push(event.paths[i].clone());
                }
                i += 1;
            }
            proof {
                assert(event.paths@.take(event.paths.len() as int) =~= event.paths@);
            }
        },
        _ => {},
    }
    paths
}

/// What is told of a shader that did not compile.
#[derive(Debug)]
pub struct Diagnostic {
    /// Name of the shader's file.
    pub file_name: String,
    /// What went wrong.
    pub message: String,
    /// The lines of the source that the message is about, where the parser
    /// pointed at any.
    pub snippet: Option<String>,
}

/// What the watcher does once a changed shader went through the compiler.
#[derive(Debug)]
pub enum WatchAction<M> {
    /// Send the module to the thread that owns the pipelines.
    Reload(ReloadEvent<M>),
    /// Tell of the failure, and leave every pipeline as it is.
    Report(Diagnostic),
}

impl<M> WatchAction<M> {
    /// The events that this action sends to the owner of the pipelines.
    pub open spec fn events(self) -> Seq<ReloadEvent<M>> {
        match self {
            WatchAction::Reload(event) => seq![event],
            WatchAction::Report(_) => Seq::empty(),
        }
    }
}

/// The name under which the shader at `path` is reported.
pub open spec fn reported_name(path: Seq<char>) -> Seq<char> {
    if file_name_of(path).len() == 0 {
        UNNAMED_SHADER@
    } else {
        file_name_of(path)
    }
}

/// The name under which the shader at `path` is reported.
pub fn reported_file_name(path: &str) -> (name: String)
    ensures
        name@ == reported_name(path@),
{
    let name = file_name(path);
    if name.unicode_len() == 0 {
        UNNAMED_SHADER.to_owned()
    } else {
        name.to_owned()
    }
}

/// What is told of the shader at `path` that failed with `error`.
pub open spec fn diagnostic_of(path: Seq<char>, error: CompilerError, diagnostic: Diagnostic) -> bool {
    &&& diagnostic.file_name@ == reported_name(path)
    &&& diagnostic.message@ == error.spec_message()
    &&& match error {
        CompilerError::Compile { error, source } => diagnostic.snippet matches Some(text)
            && text@ == error.rendered@,
        _ => diagnostic.snippet.is_none(),
    }
}

/// What the watcher does for the shader at `path` once the compiler is done
/// with it.
pub open spec fn action_of<M>(
    path: Seq<char>,
    compiled: Result<M, CompilerError>,
    action: WatchAction<M>,
) -> bool {
    match compiled {
        Ok(module) => action matches WatchAction::Reload(event) && event.path@ == path
            && event.module == module,
        Err(error) => action matches WatchAction::Report(diagnostic) && diagnostic_of(
            path,
            error,
            diagnostic,
        ),
    }
}

/// Decides what follows a compilation of the shader at `path`: a module is
/// sent on with the path it came from; a failure is reported under the
/// file's name and nothing is sent.
pub fn on_compiled<M>(path: String, compiled: Result<M, CompilerError>) -> (action: WatchAction<M>)
    ensures
        action_of(path@, compiled, action),
        compiled.is_err() ==> action.events() == Seq::<ReloadEvent<M>>::empty(),
{
    match compiled {
        Ok(module) => WatchAction::Reload(ReloadEvent { path, module }),
        Err(error) => {
            let file_name = reported_file_name(path.as_str());
            let message = error.message();
            let snippet = match error {
                CompilerError::Compile { error, source } => Some(error.rendered),
                _ => None,
            };
            WatchAction::Report(Diagnostic { file_name, message, snippet })
        },
    }
}

/// How the making of a backend module from compiled words ended.
#[derive(Debug)]
pub enum ModuleCreation<M> {
    /// The device made the module.
    Created(M),
    /// The device was torn down while the shader was compiled.
    DeviceGone,
    /// The device refused the words.
    Failed { message: String },
}

/// What the watcher does for the shader at `path` once the device was asked
/// for a module.
pub open spec fn creation_action_of<M>(
    path: Seq<char>,
    created: ModuleCreation<M>,
    action: Option<WatchAction<M>>,
) -> bool {
    match created {
        ModuleCreation::Created(module) => action matches Some(WatchAction::Reload(event))
            && event.path@ == path && event.module == module,
        ModuleCreation::DeviceGone => action.is_none(),
        ModuleCreation::Failed { message } => action matches Some(WatchAction::Report(diagnostic))
            && diagnostic.file_name@ == reported_name(path) && diagnostic.message@ == message@
            && diagnostic.snippet.is_none(),
    }
}

/// Decides what follows the making of a backend module for the shader at
/// `path`: a module is sent on with its path, a refusal is reported, and a
/// device that is gone is passed over in silence.
pub fn on_module_created<M>(path: String, created: ModuleCreation<M>) -> (action: Option<
    WatchAction<M>,
>)
    ensures
        creation_action_of(path@, created, action),
{
    match created {
        ModuleCreation::Created(module) => Some(WatchAction::Reload(ReloadEvent { path, module })),
        ModuleCreation::DeviceGone => None,
        ModuleCreation::Failed { message } => {
            let file_name = reported_file_name(path.as_str());
            Some(WatchAction::Report(Diagnostic { file_name, message, snippet: None }))
        },
    }
}

/// A shader that fails to compile leaves every pipeline as it was: what
/// follows the failure sends nothing, and delivering nothing changes nothing.
pub proof fn lemma_failed_compile_changes_nothing<T: ReloadablePipeline<D, M>, D, M>(
    registry: Registry<T>,
    device: &D,
    path: Seq<char>,
    error: CompilerError,
    action: WatchAction<M>,
)
    requires
        registry.wf(),
        action_of(path, Err::<M, CompilerError>(error), action),
    ensures
        action.events().len() == 0,
        registry.deliver(device, action.events(), action.events().len() as int) == registry,
{
}

} // verus!
