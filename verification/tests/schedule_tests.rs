use post_archive::schedule::{
    assign_worker, plan_batch, plan_image_batch, plan_render_batch, Action, Assignment, Event,
    Stage, StageRun,
};

fn names(list: &[&str]) -> Vec<String> {
    list.iter().map(|s| s.to_string()).collect()
}

fn workers(items: usize, pool: usize) -> Vec<usize> {
    plan_batch(items, pool).into_iter().map(|a| a.worker).collect()
}

#[test]
fn workers_take_items_in_turn() {
    assert_eq!(workers(5, 2), vec![0, 1, 0, 1, 0]);
    assert_eq!(workers(3, 40), vec![0, 1, 2]);
    assert_eq!(workers(0, 3), Vec::<usize>::new());
    assert_eq!(workers(4, 1), vec![0, 0, 0, 0]);
    assert_eq!(assign_worker(7, 3), 1);
    assert_eq!(assign_worker(usize::MAX, 2), 1);
}

#[test]
fn every_item_goes_to_the_worker_of_its_place() {
    for pool in 1..9usize {
        for items in 1..30usize {
            let plan = plan_batch(items, pool);
            assert_eq!(plan.len(), items);
            for (i, assignment) in plan.iter().enumerate() {
                assert_eq!(*assignment, Assignment { item: i, worker: i % pool });
            }
        }
    }
}

#[test]
fn videos_are_passed_over_and_images_keep_their_places() {
    let jobs = plan_image_batch(&names(&["a.jpg", "b.mp4", "c.jpg", "d.mp4", "e.png", "f"]), 2);
    assert_eq!(
        jobs,
        vec![
            Assignment { item: 0, worker: 0 },
            Assignment { item: 2, worker: 0 },
            Assignment { item: 4, worker: 0 },
            Assignment { item: 5, worker: 1 },
        ]
    );
    assert_eq!(plan_image_batch(&names(&["x/y.mp4", ".mp4", "z.MP4"]), 3).len(), 2);
}

#[test]
fn each_post_is_rendered_with_its_own_media() {
    let posts = names(&["2023-05-14_18-42-09_UTC.txt", "2023-05-15_08-00-00_UTC.txt", ".."]);
    let assets = names(&[
        "2023-05-14_18-42-09_UTC_1.jpg",
        "2023-05-15_08-00-00_UTC.jpg",
        "2023-05-14_18-42-09_UTC_2.mp4",
    ]);
    let jobs = plan_render_batch(&posts, &assets, 2);
    assert_eq!(jobs.len(), 3);
    assert_eq!(jobs[0].post, "2023-05-14_18-42-09_UTC.txt");
    assert_eq!(
        jobs[0].assets,
        names(&["2023-05-14_18-42-09_UTC_1.jpg", "2023-05-14_18-42-09_UTC_2.mp4"])
    );
    assert_eq!(jobs[0].worker, 0);
    assert_eq!(jobs[1].assets, names(&["2023-05-15_08-00-00_UTC.jpg"]));
    assert_eq!(jobs[1].worker, 1);
    assert_eq!(jobs[2].assets, names(&[]));
    assert_eq!(jobs[2].worker, 0);
}

#[test]
fn a_stage_dispatches_all_items_then_waits_for_all_results() {
    let plan = plan_batch(3, 2);
    let mut run = StageRun::begin(Stage::FindPosts, plan.len());
    let mut seen = Vec::new();
    let mut action = run.next_action();
    while let Action::Dispatch(place) = action {
        seen.push(plan[place]);
        assert_eq!(run.advance(7), None);
        let next = run.step(Event::Dispatched);
        run = next.0;
        action = next.1;
    }
    assert_eq!(
        seen,
        vec![
            Assignment { item: 0, worker: 0 },
            Assignment { item: 1, worker: 1 },
            Assignment { item: 2, worker: 0 },
        ]
    );
    for left in [2, 1, 0] {
        assert_eq!(action, Action::Await);
        assert_eq!(run.advance(7), None);
        let next = run.step(Event::Completed);
        run = next.0;
        action = next.1;
        assert_eq!(run.items - run.joined, left);
    }
    assert_eq!(action, Action::Advance);
    assert_eq!(run.step(Event::Completed), (run, Action::Advance));
    assert_eq!(run.step(Event::Dispatched), (run, Action::Advance));
    let next = run.advance(7).unwrap();
    assert_eq!(
        next,
        StageRun { stage: Stage::FindMedia, items: 7, dispatched: 0, joined: 0 }
    );
}

#[test]
fn results_may_come_while_items_are_dispatched() {
    let run = StageRun::begin(Stage::ProcessMedia, 2);
    let (run, _) = run.step(Event::Completed);
    assert_eq!(run.joined, 0);
    let (run, action) = run.step(Event::Dispatched);
    assert_eq!(action, Action::Dispatch(1));
    let (run, action) = run.step(Event::Completed);
    assert_eq!(action, Action::Dispatch(1));
    let (run, action) = run.step(Event::Dispatched);
    assert_eq!(action, Action::Await);
    let (run, action) = run.step(Event::Completed);
    assert_eq!(action, Action::Advance);
    assert_eq!(run.advance(0).unwrap().stage, Stage::RenderPosts);
}

#[test]
fn the_stages_follow_one_another() {
    let mut run = StageRun::begin(Stage::FindPosts, 0);
    let mut stages = vec![run.stage];
    for _ in 0..5 {
        assert_eq!(run.next_action(), Action::Advance);
        run = run.advance(0).unwrap();
        stages.push(run.stage);
    }
    assert_eq!(
        stages,
        vec![
            Stage::FindPosts,
            Stage::FindMedia,
            Stage::ProcessMedia,
            Stage::RenderPosts,
            Stage::Finished,
            Stage::Finished,
        ]
    );
}
