//! Distributing the items of a stage over a fixed pool of workers, and
//! the barrier between one stage and the next.
//!
//! The items of a stage are dispatched in turn, none waiting for another.
//! The stage is complete when every dispatched item has brought its
//! result, and only then does the next stage begin.

use vstd::prelude::*;
use crate::media::{lines_starting_with, lines_with_prefix};
use crate::names::{extension_chars, extension_of, file_stem_of, stem_chars};
use crate::text::{chars_of, same_chars};

verus! {

/// The worker that item `index` is dispatched to in a pool of `pool_size`
/// workers.
pub open spec fn worker_of(index: nat, pool_size: nat) -> nat
    recommends
        pool_size > 0,
{
    index % pool_size
}

/// Picks the worker for the item at `index`: workers take items in turn.
pub fn assign_worker(index: usize, pool_size: usize) -> (worker: usize)
    requires
        pool_size > 0,
    ensures
        worker == worker_of(index as nat, pool_size as nat),
        worker < pool_size,
{
    index % pool_size
}

/// One item of a stage, and the worker it goes to.
#[derive(Clone, Copy, Debug, PartialEq, Eq, Structural)]
pub struct Assignment {
    pub item: usize,
    pub worker: usize,
}

/// Assigns each of `items` items its worker out of `pool_size`: item `i`
/// goes to worker `i mod pool_size`.
pub fn plan_batch(items: usize, pool_size: usize) -> (plan: Vec<Assignment>)
    requires
        pool_size > 0,
    ensures
        plan.len() == items,
        forall|i: int|
            0 <= i < items ==> #[trigger] plan[i] == (Assignment {
                item: i as usize,
                worker: worker_of(i as nat, pool_size as nat) as usize,
            }),
{
    let mut plan: Vec<Assignment> = Vec::new();
    let mut i: usize = 0;
    while i < items
        invariant
            i <= items,
            pool_size > 0,
            plan.len() == i,
            forall|k: int|
                0 <= k < i ==> #[trigger] plan[k] == (Assignment {
                    item: k as usize,
                    worker: worker_of(k as nat, pool_size as nat) as usize,
                }),
        decreases items - i,
    {
        plan.push(Assignment { item: i, worker: assign_worker(i, pool_size) });
        i += 1;
    }
    plan
}

/// Whether the media file `asset` is a video, which has no renditions.
pub open spec fn is_video(asset: Seq<char>) -> bool {
    extension_of(asset) == Some("mp4"@)
}

/// The assignments of the images among the first `n` of `assets`: each
/// image keeps the place it has among all the media, and goes to the
/// worker of that place.
pub open spec fn image_jobs(assets: Seq<Seq<char>>, n: int, pool_size: nat) -> Seq<Assignment>
    decreases n,
{
    if n <= 0 {
        Seq::empty()
    } else if is_video(assets[n - 1]) {
        image_jobs(assets, n - 1, pool_size)
    } else {
        image_jobs(assets, n - 1, pool_size).push(
            Assignment { item: (n - 1) as usize, worker: worker_of((n - 1) as nat, pool_size) as usize },
        )
    }
}

/// Plans the stage that makes the renditions: the videos among `assets`
/// are passed over, each image is assigned the worker of its place.
pub fn plan_image_batch(assets: &Vec<String>, pool_size: usize) -> (jobs: Vec<Assignment>)
    requires
        pool_size > 0,
    ensures
        jobs@ == image_jobs(assets.deep_view(), assets.len() as int, pool_size as nat),
{
    let video = chars_of("mp4");
    let ghost all = assets.deep_view();
    let mut jobs: Vec<Assignment> = Vec::new();
    let mut i: usize = 0;
    while i < assets.len()
        invariant
            i <= assets.len(),
            pool_size > 0,
            video@ == "mp4"@,
            all == assets.deep_view(),
            jobs@ == image_jobs(all, i as int, pool_size as nat),
        decreases assets.len() - i,
    {
        let path = chars_of(assets[i].as_str());
        assert(all[i as int] == assets[i as int]@);
        let skip = match extension_chars(&path) {
            Some(ext) => same_chars(&ext, &video),
            None => false,
        };
        if !skip {
            jobs.push(Assignment { item: i, worker: assign_worker(i, pool_size) });
        }
        i += 1;
    }
    jobs
}

/// The rendering of one post: the post, its media, and the worker that
/// renders it.
#[derive(Debug)]
pub struct RenderJob {
    pub post: String,
    pub assets: Vec<String>,
    pub worker: usize,
}

/// The media of the post `post` among `assets`: the entries that begin
/// with the stem of the post, and none where the post's name has no stem.
pub open spec fn assets_of_post(post: Seq<char>, assets: Seq<Seq<char>>) -> Seq<Seq<char>> {
    match file_stem_of(post) {
        Some(stem) => lines_starting_with(assets, stem),
        None => Seq::empty(),
    }
}

/// Whether `job` is the rendering of the post at place `index` of `posts`.
pub open spec fn is_render_job(
    job: RenderJob,
    index: int,
    posts: Seq<Seq<char>>,
    assets: Seq<Seq<char>>,
    pool_size: nat,
) -> bool {
    &&& job.post@ == posts[index]
    &&& job.assets.deep_view() == assets_of_post(posts[index], assets)
    &&& job.worker == worker_of(index as nat, pool_size)
}

/// Plans the stage that renders the documents: each post in its turn,
/// with its media picked out of the media of all posts, for the worker
/// of its place.
pub fn plan_render_batch(posts: &Vec<String>, assets: &Vec<String>, pool_size: usize) -> (jobs: Vec<
    RenderJob,
>)
    requires
        pool_size > 0,
    ensures
        jobs.len() == posts.len(),
        forall|i: int|
            0 <= i < jobs.len() ==> is_render_job(
                #[trigger] jobs[i],
                i,
                posts.deep_view(),
                assets.deep_view(),
                pool_size as nat,
            ),
{
    let mut jobs: Vec<RenderJob> = Vec::new();
    let mut i: usize = 0;
    while i < posts.len()
        invariant
            i <= posts.len(),
            pool_size > 0,
            jobs.len() == i,
            forall|k: int|
                0 <= k < i ==> is_render_job(
                    #[trigger] jobs[k],
                    k,
                    posts.deep_view(),
                    assets.deep_view(),
                    pool_size as nat,
                ),
        decreases posts.len() - i,
    {
        let name = chars_of(posts[i].as_str());
        assert(posts.deep_view()[i as int] == posts[i as int]@);
        let found = match stem_chars(&name) {
            Some(stem) => lines_with_prefix(assets, &stem),
            None => {
                let none: Vec<String> = Vec::new();
                assert(none.deep_view() == Seq::<Seq<char>>::empty());
                none
            },
        };
        jobs.push(
            RenderJob { post: posts[i].clone(), assets: found, worker: assign_worker(i, pool_size) },
        );
        i += 1;
    }
    jobs
}

/// The stages of a run, in their order.
#[derive(Clone, Copy, Debug, PartialEq, Eq, Structural)]
pub enum Stage {
    /// Reading the key of each post from its file name.
    FindPosts,
    /// Resolving the media of each post.
    FindMedia,
    /// Making the renditions of each image.
    ProcessMedia,
    /// Rendering the document of each post.
    RenderPosts,
    /// Nothing is left to do.
    Finished,
}

/// The stage that follows `stage`.
pub open spec fn stage_after(stage: Stage) -> Stage {
    match stage {
        Stage::FindPosts => Stage::FindMedia,
        Stage::FindMedia => Stage::ProcessMedia,
        Stage::ProcessMedia => Stage::RenderPosts,
        Stage::RenderPosts => Stage::Finished,
        Stage::Finished => Stage::Finished,
    }
}

/// How far a stage has come: how many of its items have been dispatched,
/// and how many of those have brought a result, be it a failure.
#[derive(Clone, Copy, Debug, PartialEq, Eq, Structural)]
pub struct StageRun {
    pub stage: Stage,
    pub items: usize,
    pub dispatched: usize,
    pub joined: usize,
}

/// What has happened since the scheduler was last asked.
#[derive(Clone, Copy, Debug, PartialEq, Eq, Structural)]
pub enum Event {
    /// The item that was to be dispatched is on its way.
    Dispatched,
    /// One of the dispatched items has brought its result.
    Completed,
}

/// What is to be done next.
#[derive(Clone, Copy, Debug, PartialEq, Eq, Structural)]
pub enum Action {
    /// Hand the item at this place of the stage's plan to its worker,
    /// without waiting for any result.
    Dispatch(usize),
    /// Wait for the result of an item.
    Await,
    /// The stage is complete: begin the next one.
    Advance,
}

impl StageRun {
    /// There are no more results than dispatched items, and no more
    /// dispatched items than items.
    pub open spec fn wf(&self) -> bool {
        self.joined <= self.dispatched <= self.items
    }

    /// Whether the stage is complete: every item has been dispatched and
    /// has brought its result.
    pub open spec fn is_complete(&self) -> bool {
        self.joined == self.items
    }

    /// What is to be done at this point of the stage: dispatch the next
    /// item as long as one is left, then wait as long as a result is
    /// missing, then go on to the next stage.
    pub open spec fn action(&self) -> Action {
        if self.dispatched < self.items {
            Action::Dispatch(self.dispatched)
        } else if self.joined < self.items {
            Action::Await
        } else {
            Action::Advance
        }
    }

    /// The stage after `event`. An event that cannot have happened (a
    /// dispatch when no item is left, a result when none is awaited)
    /// changes nothing.
    pub open spec fn after(&self, event: Event) -> StageRun {
        match event {
            Event::Dispatched => if self.dispatched < self.items {
                StageRun { dispatched: (self.dispatched + 1) as usize, ..*self }
            } else {
                *self
            },
            Event::Completed => if self.joined < self.dispatched {
                StageRun { joined: (self.joined + 1) as usize, ..*self }
            } else {
                *self
            },
        }
    }

    /// Begins `stage` with `items` items.
    pub fn begin(stage: Stage, items: usize) -> (run: StageRun)
        ensures
            run == (StageRun { stage, items, dispatched: 0, joined: 0 }),
            run.wf(),
    {
        StageRun { stage, items, dispatched: 0, joined: 0 }
    }

    /// What is to be done next.
    pub fn next_action(&self) -> (action: Action)
        ensures
            action == self.action(),
    {
        if self.dispatched < self.items {
            Action::Dispatch(self.dispatched)
        } else if self.joined < self.items {
            Action::Await
        } else {
            Action::Advance
        }
    }

    /// Takes note of `event` and says what is to be done next.
    pub fn step(self, event: Event) -> (next: (StageRun, Action))
        ensures
            next.0 == self.after(event),
            self.wf() ==> next.0.wf(),
            next.1 == next.0.action(),
    {
        let run = match event {
            Event::Dispatched => if self.dispatched < self.items {
                StageRun {
                    stage: self.stage,
                    items: self.items,
                    dispatched: self.dispatched + 1,
                    joined: self.joined,
                }
            } else {
                self
            },
            Event::Completed => if self.joined < self.dispatched {
                StageRun {
                    stage: self.stage,
                    items: self.items,
                    dispatched: self.dispatched,
                    joined: self.joined + 1,
                }
            } else {
                self
            },
        };
        let action = run.next_action();
        (run, action)
    }

    /// Goes on to the next stage, with `items` items, if this one is
    /// complete; before that there is no next stage.
    pub fn advance(&self, items: usize) -> (next: Option<StageRun>)
        ensures
            next is Some <==> self.joined >= self.items,
            next is Some ==> next->0 == (StageRun {
                stage: stage_after(self.stage),
                items,
                dispatched: 0,
                joined: 0,
            }) && next->0.wf(),
    {
        if self.joined < self.items {
            return None;
        }
        let stage = match self.stage {
            Stage::FindPosts => Stage::FindMedia,
            Stage::FindMedia => Stage::ProcessMedia,
            Stage::ProcessMedia => Stage::RenderPosts,
            Stage::RenderPosts => Stage::Finished,
            Stage::Finished => Stage::Finished,
        };
        Some(StageRun { stage, items, dispatched: 0, joined: 0 })
    }
}

/// Item `i` of a batch goes to worker `i mod P`, whatever the size of the
/// batch: the worker is one of the pool, the items that follow one
/// another go to workers that follow one another, and after `P` items
/// the first worker has its turn again.
pub proof fn law_round_robin(index: nat, pool_size: nat)
    requires
        pool_size > 0,
    ensures
        worker_of(index, pool_size) == index % pool_size,
        worker_of(index, pool_size) < pool_size,
        worker_of(index + pool_size, pool_size) == worker_of(index, pool_size),
        worker_of(index + 1, pool_size) == if worker_of(index, pool_size) + 1 == pool_size {
            0
        } else {
            worker_of(index, pool_size) + 1
        },
{
    vstd::arithmetic::div_mod::lemma_mod_add_multiples_vanish(index as int, pool_size as int);
    vstd::arithmetic::div_mod::lemma_mod_bound(index as int, pool_size as int);
    vstd::arithmetic::div_mod::lemma_fundamental_div_mod(index as int, pool_size as int);
    vstd::arithmetic::div_mod::lemma_fundamental_div_mod((index + 1) as int, pool_size as int);
    assert(worker_of(index + 1, pool_size) == if worker_of(index, pool_size) + 1 == pool_size {
        0
    } else {
        worker_of(index, pool_size) + 1
    }) by (nonlinear_arith)
        requires
            pool_size > 0,
            index == pool_size * (index / pool_size) + index % pool_size,
            index + 1 == pool_size * ((index + 1) / pool_size) + (index + 1) % pool_size,
            0 <= index % pool_size < pool_size,
            0 <= (index + 1) % pool_size < pool_size,
    ;
}

/// The barrier: as long as an item is left, the next thing to do is to
/// dispatch it, whatever results have come; the stage goes on to the next
/// one exactly when every item has brought its result, and no event
/// undoes that.
pub proof fn law_stage_barrier(run: StageRun, event: Event)
    requires
        run.wf(),
    ensures
        run.after(event).wf(),
        run.dispatched < run.items ==> run.action() == Action::Dispatch(run.dispatched),
        run.action() is Advance <==> run.is_complete(),
        run.is_complete() ==> run.dispatched == run.items,
        run.is_complete() ==> run.after(event) == run,
{
}

} // verus!
