use vstd::prelude::*;
use crate::vision::{Detection, copy_detections};

verus! {

/// Cruise speed used when the way is clear, in thousandths of full scale.
pub const CRUISE_SPEED: i32 = 500;

/// Placeholder distance reported while a goal is set, in millimetres.
pub const GOAL_DISTANCE_MM: u32 = 10000;

/// A coarse motion directive from the obstacle model.
#[derive(Debug, Clone, Copy, PartialEq, Eq, Structural)]
pub enum NavigationCommand {
    /// Speed in thousandths of full scale.
    Forward(i32),
    /// Angle in millidegrees.
    TurnLeft(i64),
    /// Angle in millidegrees.
    TurnRight(i64),
    Stop,
}

/// A point of a planned path, in millimetres.
#[derive(Debug, Clone, Copy, PartialEq, Eq, Structural)]
pub struct PathPoint {
    pub x: i32,
    pub y: i32,
}

/// Summary of the planner's state.
#[derive(Debug, Clone, Copy, PartialEq, Eq, Structural)]
pub struct PathStatus {
    pub has_path: bool,
    /// Distance to the goal in millimetres, when a goal is set.
    pub distance_to_goal: Option<u32>,
    pub obstacles_count: usize,
}

/// The obstacle model's command: stop while anything is seen, cruise otherwise.
pub open spec fn command_for(obstacles: Seq<Detection>) -> NavigationCommand {
    if obstacles.len() > 0 {
        NavigationCommand::Stop
    } else {
        NavigationCommand::Forward(CRUISE_SPEED)
    }
}

/// Minimal obstacle-presence planner.
pub struct PathPlanner {
    current_path: Vec<PathPoint>,
    obstacles: Vec<Detection>,
    goal: Option<PathPoint>,
}

impl PathPlanner {
    pub closed spec fn obstacles(&self) -> Seq<Detection> {
        self.obstacles@
    }

    pub closed spec fn path(&self) -> Seq<PathPoint> {
        self.current_path@
    }

    pub closed spec fn goal(&self) -> Option<PathPoint> {
        self.goal
    }

    /// No path, no obstacles, no goal.
    pub fn new() -> (r: PathPlanner)
        ensures
            r.path().len() == 0,
            r.obstacles().len() == 0,
            r.goal() is None,
    {
        PathPlanner { current_path: Vec::new(), obstacles: Vec::new(), goal: None }
    }

    /// Replaces the obstacle set with `detections`.
    pub fn update_obstacles(&mut self, detections: &[Detection])
        ensures
            final(self).obstacles() == detections@,
            final(self).path() == old(self).path(),
            final(self).goal() == old(self).goal(),
    {
        self.obstacles = copy_detections(detections);
    }

    pub fn get_navigation_command(&self) -> (r: NavigationCommand)
        ensures
            r == command_for(self.obstacles()),
    {
        if self.obstacles.len() > 0 {
            NavigationCommand::Stop
        } else {
            NavigationCommand::Forward(CRUISE_SPEED)
        }
    }

    pub fn get_current_path(&self) -> (r: Vec<PathPoint>)
        ensures
            r@ == self.path(),
    {
        let mut r: Vec<PathPoint> = Vec::new();
        let mut i: usize = 0;
        while i < self.current_path.len()
            invariant
                i <= self.current_path.len(),
                r@ == self.current_path@.subrange(0, i as int),
            decreases self.current_path.len() - i,
        {
            r.push(self.current_path[i]);
            i = i + 1;
        }
        assert(self.current_path@.subrange(0, self.current_path@.len() as int)
            == self.current_path@);
        r
    }

    pub fn get_distance_to_goal(&self) -> (r: Option<u32>)
        ensures
            r == (if self.goal() is Some { Some(GOAL_DISTANCE_MM) } else { None::<u32> }),
    {
        match self.goal {
            Some(_) => Some(GOAL_DISTANCE_MM),
            None => None,
        }
    }

    pub fn get_status(&self) -> (r: PathStatus)
        ensures
            r.has_path == (self.path().len() > 0),
            r.distance_to_goal == (if self.goal() is Some { Some(GOAL_DISTANCE_MM) } else { None::<u32> }),
            r.obstacles_count == self.obstacles().len(),
    {
        PathStatus {
            has_path: self.current_path.len() > 0,
            distance_to_goal: self.get_distance_to_goal(),
            obstacles_count: self.obstacles.len(),
        }
    }
}

} // verus!
