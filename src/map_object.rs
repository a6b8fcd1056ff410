use vstd::prelude::*;
use crate::number::RealNumber;
use crate::rendering::types::Angle;

verus! {

#[derive(Copy, Clone, Debug, PartialEq, Eq, Structural)]
pub enum PlayerState {
    /// Playing or camping.
    Alive,
    /// Dead on the ground, the view follows the killer.
    Dead,
    /// Ready to restart.
    Reborn,
}

/// The player as the renderer sees it: position, facing, eye height and lighting.
#[derive(Copy, Clone, Debug)]
pub struct Player {
    pub state: PlayerState,
    pub x: RealNumber,
    pub y: RealNumber,
    pub z: RealNumber,
    pub angle: Angle,
    pub extra_light: i32,
    pub viewz: RealNumber,
    pub fixed_color_map: i32,
}

impl Player {
    /// A dead player at the origin, facing east, with no extra light.
    pub fn new() -> (r: Self)
        ensures
            r.state == PlayerState::Dead,
            r.x@ == 0 && r.y@ == 0 && r.z@ == 0 && r.viewz@ == 0,
            r.angle@ == 0,
            r.extra_light == 0,
            r.fixed_color_map == 0,
    {
        let zero = RealNumber::new_from_bits(0);
        Player {
            state: PlayerState::Dead,
            x: zero,
            y: zero,
            z: zero,
            angle: Angle::new(0),
            extra_light: 0,
            viewz: zero,
            fixed_color_map: 0,
        }
    }

    pub fn x(&self) -> (r: RealNumber)
        ensures
            r == self.x,
    {
        self.x
    }

    pub fn y(&self) -> (r: RealNumber)
        ensures
            r == self.y,
    {
        self.y
    }

    pub fn z(&self) -> (r: RealNumber)
        ensures
            r == self.z,
    {
        self.z
    }

    pub fn angle(&self) -> (r: Angle)
        ensures
            r == self.angle,
    {
        self.angle
    }

    pub fn set_position(&mut self, x: RealNumber, y: RealNumber, z: RealNumber)
        ensures
            final(self).x == x,
            final(self).y == y,
            final(self).z == z,
            final(self).angle == old(self).angle,
            final(self).viewz == old(self).viewz,
            final(self).extra_light == old(self).extra_light,
            final(self).fixed_color_map == old(self).fixed_color_map,
            final(self).state == old(self).state,
    {
        self.x = x;
        self.y = y;
        self.z = z;
    }

    pub fn set_angle(&mut self, angle: Angle)
        ensures
            final(self).angle == angle,
            final(self).x == old(self).x,
            final(self).y == old(self).y,
            final(self).z == old(self).z,
            final(self).viewz == old(self).viewz,
            final(self).extra_light == old(self).extra_light,
            final(self).fixed_color_map == old(self).fixed_color_map,
            final(self).state == old(self).state,
    {
        self.angle = angle;
    }

    /// Sets the height of the eyes.
    pub fn set_viewz(&mut self, viewz: RealNumber)
        ensures
            final(self).viewz == viewz,
            final(self).x == old(self).x,
            final(self).y == old(self).y,
            final(self).z == old(self).z,
            final(self).angle == old(self).angle,
            final(self).extra_light == old(self).extra_light,
            final(self).fixed_color_map == old(self).fixed_color_map,
            final(self).state == old(self).state,
    {
        self.viewz = viewz;
    }

    pub fn extra_light(&self) -> (r: i32)
        ensures
            r == self.extra_light,
    {
        self.extra_light
    }

    pub fn viewz(&self) -> (r: RealNumber)
        ensures
            r == self.viewz,
    {
        self.viewz
    }

    pub fn fixed_color_map(&self) -> (r: i32)
        ensures
            r == self.fixed_color_map,
    {
        self.fixed_color_map
    }
}

} // verus!
