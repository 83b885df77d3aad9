//! The camera that follows a body.
use crate::fixed::Fixed;
use crate::physics::component::Entity;
use crate::vector::Vec2;
use vstd::prelude::*;

verus! {

/// The target for the camera to follow.
#[derive(Clone, Copy, Debug, PartialEq, Eq, Structural)]
pub struct CameraTarget(pub Option<Entity>);

/// How far from its target the camera comes to rest.
#[derive(Clone, Copy, Debug, PartialEq, Eq, Structural)]
pub struct CameraOffset(pub Vec2);

/// How fast the camera closes in on its target, per second.
#[derive(Clone, Copy, Debug, PartialEq, Eq, Structural)]
pub struct CameraSpeed(pub Fixed);

/// The config for the game camera.
#[derive(Clone, Copy, Debug, PartialEq, Eq, Structural)]
pub struct GameCameraConfig {
    /// The scale of the viewport.
    pub scale: Fixed,
    /// The size of the viewport in pixels.
    pub viewport_size: Vec2,
    /// The body that should be followed.
    pub target_id: Option<Entity>,
}

impl Default for CameraOffset {
    /// No offset.
    fn default() -> (offset: CameraOffset)
        ensures
            offset == CameraOffset(Vec2::zero()),
    {
        CameraOffset(Vec2::zero())
    }
}

impl Default for CameraSpeed {
    /// No speed.
    fn default() -> (speed: CameraSpeed)
        ensures
            speed == CameraSpeed(Fixed::zero()),
    {
        CameraSpeed(Fixed::zero())
    }
}

impl Default for GameCameraConfig {
    /// No scale, no viewport, no target.
    fn default() -> (config: GameCameraConfig)
        ensures
            config == (GameCameraConfig {
                scale: Fixed::zero(),
                viewport_size: Vec2::zero(),
                target_id: None,
            }),
    {
        GameCameraConfig { scale: Fixed::zero(), viewport_size: Vec2::zero(), target_id: None }
    }
}

/// A coordinate moved toward `goal` by the fraction `speed` times `dt` of the
/// way.
pub open spec fn spec_approached(from: Fixed, goal: Fixed, speed: Fixed, dt: Fixed) -> Fixed {
    from.plus(speed.times(dt).times(goal.minus(from)))
}

/// Where the camera is after a tick.
///
/// Without a target it is at the origin. With a target that no longer lives
/// it stays where it is. Otherwise it closes in on the target's position,
/// shifted by the offset if there is one.
pub open spec fn spec_followed(
    camera: Vec2,
    target: CameraTarget,
    target_position: Option<Vec2>,
    speed: CameraSpeed,
    offset: Option<CameraOffset>,
    dt: Fixed,
) -> Vec2 {
    match target.0 {
        None => Vec2::zero(),
        Some(_) => match target_position {
            None => camera,
            Some(position) => {
                let shift = match offset {
                    Some(offset) => offset.0,
                    None => Vec2::zero(),
                };
                Vec2 {
                    x: spec_approached(camera.x, position.x.plus(shift.x), speed.0, dt),
                    y: spec_approached(camera.y, position.y.plus(shift.y), speed.0, dt),
                }
            },
        },
    }
}

/// A coordinate moved toward `goal` by the fraction `speed` times `dt` of the
/// way.
#[verifier::when_used_as_spec(spec_approached)]
pub fn approached(from: Fixed, goal: Fixed, speed: Fixed, dt: Fixed) -> (next: Fixed)
    ensures
        next == spec_approached(from, goal, speed, dt),
{
    from.plus(speed.times(dt).times(goal.minus(from)))
}

/// Moves the camera toward its target. `target_position` is the position of
/// the target, if the target lives.
pub fn update_position(
    camera: &mut Vec2,
    target: &CameraTarget,
    target_position: Option<Vec2>,
    speed: &CameraSpeed,
    offset: Option<&CameraOffset>,
    dt: Fixed,
)
    ensures
        *final(camera) == spec_followed(
            *old(camera),
            *target,
            target_position,
            *speed,
            match offset {
                Some(offset) => Some(*offset),
                None => None,
            },
            dt,
        ),
{
    match target.0 {
        Some(_) => match target_position {
            Some(position) => {
                let shift = match offset {
                    Some(offset) => offset.0,
                    None => Vec2::zero(),
                };
                camera.x = approached(camera.x, position.x.plus(shift.x), speed.0, dt);
                camera.y = approached(camera.y, position.y.plus(shift.y), speed.0, dt);
            },
            None => {},
        },
        None => {
            *camera = Vec2::zero();
        },
    }
}

} // verus!
