//! The movable entities: the player ship, the hazardous asteroids and the
//! bullets it fires. All coordinates are milli-pixels, all angles
//! milli-degrees.

use vstd::prelude::*;
use crate::kinematics::FULL_TURN;
use crate::kinematics::MILLI;
use crate::kinematics::SCREEN_HEIGHT;
use crate::kinematics::SCREEN_WIDTH;
use crate::kinematics::advance_angle;
use crate::kinematics::advance_linear;
use crate::kinematics::cos_mdeg;
use crate::kinematics::cos_mdeg_spec;
use crate::kinematics::decay;
use crate::kinematics::min_max_loop;
use crate::kinematics::mul_trig;
use crate::kinematics::norm_angle;
use crate::kinematics::scale_mul;
use crate::kinematics::sin_mdeg;
use crate::kinematics::sin_mdeg_spec;
use crate::kinematics::spec_decay;
use crate::kinematics::spec_wrap;

verus! {

/// Side length of the player's square bounding box, in milli-pixels.
pub const PLAYER_SIZE: i64 = 20_000;

/// Side length of a bullet's square bounding box, in milli-pixels.
pub const BULLET_SIZE: i64 = 5_000;

/// Forward speed set by one thrust impulse, in milli-pixels per frame.
pub const THRUST_IMPULSE: i64 = 1_000;

/// Angular speed set by one turn command, in milli-degrees per frame.
pub const TURN_RATE: i64 = 5_000;

/// The player ship: a position, a scalar forward speed along the current
/// rotation, and the rotation with its angular speed.
#[derive(Clone, Copy, Debug, PartialEq, Eq, Structural)]
pub struct Player {
    pub x: i64,
    pub y: i64,
    pub velocity: i64,
    pub rot: i64,
    pub vrot: i64,
}

/// One frame of player motion: rotate and renormalize the angle, step the
/// position along the new heading (screen Y grows downward, so the
/// vertical component is negated), wrap each axis into the play-field,
/// decay the forward speed, and decay the angular speed - or clear it
/// entirely when the truncated rotation did not change this frame.
pub open spec fn spec_player_move(p: Player) -> Player {
    let rot2 = norm_angle(p.rot + p.vrot);
    let dx = scale_mul(p.velocity as int, cos_mdeg_spec(rot2));
    let dy = -scale_mul(p.velocity as int, sin_mdeg_spec(rot2));
    let x2 = spec_wrap(0, p.x + dx, SCREEN_WIDTH as int);
    let y2 = spec_wrap(0, p.y + dy, SCREEN_HEIGHT as int);
    let vel2 = p.velocity * 97 / 100;
    let vrot2 = if rot2 / (MILLI as int) == p.rot as int / (MILLI as int) {
        0
    } else {
        spec_decay(p.vrot as int)
    };
    Player {
        x: x2 as i64,
        y: y2 as i64,
        velocity: vel2 as i64,
        rot: rot2 as i64,
        vrot: vrot2 as i64,
    }
}

/// The player at game start: centered in the play-field, at rest,
/// facing straight up (90 degrees).
pub open spec fn initial_player() -> Player {
    Player {
        x: (SCREEN_WIDTH / 2 - PLAYER_SIZE / 2) as i64,
        y: (SCREEN_HEIGHT / 2 - PLAYER_SIZE / 2) as i64,
        velocity: 0,
        rot: 90_000,
        vrot: 0,
    }
}

impl Player {
    /// The player state is well formed: position inside the play-field,
    /// speed within one thrust impulse, rotation normalized, angular
    /// speed within one turn command.
    pub open spec fn wf(self) -> bool {
        &&& 0 <= self.x <= SCREEN_WIDTH
        &&& 0 <= self.y <= SCREEN_HEIGHT
        &&& 0 <= self.velocity <= THRUST_IMPULSE
        &&& 0 <= self.rot < FULL_TURN
        &&& -TURN_RATE <= self.vrot <= TURN_RATE
    }

    /// A fresh player: centered in the play-field, at rest, facing
    /// straight up (90 degrees).
    pub fn new() -> (p: Player)
        ensures
            p == initial_player(),
            p.wf(),
    {
        Player {
            x: SCREEN_WIDTH / 2 - PLAYER_SIZE / 2,
            y: SCREEN_HEIGHT / 2 - PLAYER_SIZE / 2,
            velocity: 0,
            rot: 90_000,
            vrot: 0,
        }
    }

    /// A thrust impulse: the forward speed is set to the fixed impulse,
    /// not accumulated.
    pub fn up(&mut self)
        ensures
            *final(self) == (Player { velocity: THRUST_IMPULSE, ..*old(self) }),
    {
        self.velocity = THRUST_IMPULSE;
    }

    /// A turn impulse: the angular speed is set to the given
    /// milli-degrees per frame.
    pub fn rotate(&mut self, degree: i64)
        requires
            -TURN_RATE <= degree <= TURN_RATE,
        ensures
            *final(self) == (Player { vrot: degree, ..*old(self) }),
    {
        self.vrot = degree;
    }

    /// One frame of motion, exactly `spec_player_move`.
    pub fn do_move(&mut self)
        requires
            old(self).wf(),
        ensures
            *final(self) == spec_player_move(*old(self)),
            final(self).wf(),
    {
        let prev_trunc: i64 = self.rot / MILLI;
        let rot2 = advance_angle(self.rot, self.vrot);
        self.rot = rot2;
        let c = cos_mdeg(rot2);
        let s = sin_mdeg(rot2);
        let dx = mul_trig(self.velocity, c);
        let dy = mul_trig(self.velocity, s);
        self.x = min_max_loop(0, advance_linear(self.x, dx), SCREEN_WIDTH);
        self.y = min_max_loop(0, advance_linear(self.y, -dy), SCREEN_HEIGHT);
        self.velocity = (self.velocity * 97) / 100;
        let new_trunc: i64 = self.rot / MILLI;
        if new_trunc == prev_trunc {
            self.vrot = 0;
        } else {
            self.vrot = decay(self.vrot);
        }
    }
}

/// A hazardous asteroid: position, velocity vector, bounding-box side
/// length and a removal flag.
#[derive(Clone, Copy, Debug, PartialEq, Eq, Structural)]
pub struct Asteroid {
    pub x: i64,
    pub y: i64,
    pub vx: i64,
    pub vy: i64,
    pub size: i64,
    pub should_remove: bool,
}

/// One frame of asteroid motion: translate by the velocity and flag for
/// removal when either axis leaves the play-field (boundary-kill; an
/// asteroid never wraps).
pub open spec fn spec_asteroid_move(a: Asteroid) -> Asteroid {
    let x2 = a.x + a.vx;
    let y2 = a.y + a.vy;
    Asteroid {
        x: x2 as i64,
        y: y2 as i64,
        should_remove: a.should_remove || x2 < 0 || x2 > SCREEN_WIDTH
            || y2 < 0 || y2 > SCREEN_HEIGHT,
        ..a
    }
}

impl Asteroid {
    /// A stored asteroid is well formed: inside the play-field, speed
    /// and size within the spawner's ranges.
    pub open spec fn wf(self) -> bool {
        &&& 0 <= self.x <= SCREEN_WIDTH
        &&& 0 <= self.y <= SCREEN_HEIGHT
        &&& -5_000 <= self.vx <= 5_000
        &&& -5_000 <= self.vy <= 5_000
        &&& 0 <= self.size <= 23_000
    }

    /// One frame of motion, exactly `spec_asteroid_move`.
    pub fn do_move(&mut self)
        requires
            -1_000_000 <= old(self).x <= 1_000_000,
            -1_000_000 <= old(self).y <= 1_000_000,
            -1_000_000 <= old(self).vx <= 1_000_000,
            -1_000_000 <= old(self).vy <= 1_000_000,
        ensures
            *final(self) == spec_asteroid_move(*old(self)),
    {
        self.x = advance_linear(self.x, self.vx);
        self.y = advance_linear(self.y, self.vy);
        if self.x < 0 || self.x > SCREEN_WIDTH {
            self.should_remove = true;
        }
        if self.y < 0 || self.y > SCREEN_HEIGHT {
            self.should_remove = true;
        }
    }
}

/// A bullet: position, velocity vector and a removal flag.
#[derive(Clone, Copy, Debug, PartialEq, Eq, Structural)]
pub struct Bullet {
    pub x: i64,
    pub y: i64,
    pub vx: i64,
    pub vy: i64,
    pub should_remove: bool,
}

/// One frame of bullet motion: the same boundary-kill policy as the
/// asteroid's.
pub open spec fn spec_bullet_move(b: Bullet) -> Bullet {
    let x2 = b.x + b.vx;
    let y2 = b.y + b.vy;
    Bullet {
        x: x2 as i64,
        y: y2 as i64,
        should_remove: b.should_remove || x2 < 0 || x2 > SCREEN_WIDTH
            || y2 < 0 || y2 > SCREEN_HEIGHT,
        ..b
    }
}

impl Bullet {
    /// A stored bullet is well formed: within the muzzle's reach of the
    /// play-field (a bullet fired from the far corner starts half a
    /// player size outside), speed within the muzzle speed.
    pub open spec fn wf(self) -> bool {
        &&& 0 <= self.x <= SCREEN_WIDTH + PLAYER_SIZE / 2
        &&& 0 <= self.y <= SCREEN_HEIGHT + PLAYER_SIZE / 2
        &&& -4_000 <= self.vx <= 4_000
        &&& -4_000 <= self.vy <= 4_000
    }

    /// One frame of motion, exactly `spec_bullet_move`.
    pub fn do_move(&mut self)
        requires
            -1_000_000 <= old(self).x <= 1_000_000,
            -1_000_000 <= old(self).y <= 1_000_000,
            -1_000_000 <= old(self).vx <= 1_000_000,
            -1_000_000 <= old(self).vy <= 1_000_000,
        ensures
            *final(self) == spec_bullet_move(*old(self)),
    {
        self.x = advance_linear(self.x, self.vx);
        self.y = advance_linear(self.y, self.vy);
        if self.x < 0 || self.x > SCREEN_WIDTH {
            self.should_remove = true;
        }
        if self.y < 0 || self.y > SCREEN_HEIGHT {
            self.should_remove = true;
        }
    }
}

} // verus!
