//! The per-frame game state machine: command interpretation, movement,
//! collision resolution, scoring, spawning and the game-over transition.

use vstd::prelude::*;
use crate::collision::is_collide;
use crate::collision::rects_overlap;
use crate::entities::Asteroid;
use crate::entities::BULLET_SIZE;
use crate::entities::Bullet;
use crate::entities::PLAYER_SIZE;
use crate::entities::Player;
use crate::entities::TURN_RATE;
use crate::entities::spec_asteroid_move;
use crate::entities::spec_bullet_move;
use crate::entities::spec_player_move;
use crate::kinematics::MILLI;
use crate::kinematics::SCREEN_HEIGHT;
use crate::kinematics::SCREEN_WIDTH;
use crate::kinematics::cos_mdeg;
use crate::kinematics::cos_mdeg_spec;
use crate::kinematics::mul_trig;
use crate::kinematics::scale_mul;
use crate::kinematics::sin_mdeg;
use crate::kinematics::sin_mdeg_spec;
use crate::rng::rng_below;
use crate::rng::rng_from_seed;

verus! {

/// Most bullets that may be live at once.
pub const MAX_BULLETS: usize = 3;

/// Most asteroids that may be live at once.
pub const MAX_ASTEROIDS: usize = 30;

/// Score awarded for each bullet-asteroid collision.
pub const SCORE_BONUS: i64 = 100;

/// Speed of a newly fired bullet, in milli-pixels per frame.
pub const MUZZLE_SPEED: i64 = 4_000;

/// The discrete per-frame input command. The set is closed: the
/// embedding layer maps raw input onto exactly these.
#[derive(Clone, Copy, Debug, PartialEq, Eq, Structural)]
pub enum Command {
    Idle,
    Left,
    Right,
    Forward,
    Shoot,
}

/// A sound-event identifier, queued during `update` and drained by the
/// embedding layer after each frame.
#[derive(Clone, Copy, Debug, PartialEq, Eq, Structural)]
pub enum SoundId {
    Crash,
}

/// The whole game state: the seeded random generator, the terminal
/// game-over flag, the frame counter, the score, the player, the sibling
/// collections of asteroids and bullets, and the pending sound events.
pub struct Game {
    pub rng: rand::rngs::StdRng,
    pub is_over: bool,
    pub frame: i64,
    pub player: Player,
    pub score: i64,
    pub asteroids: Vec<Asteroid>,
    pub bullets: Vec<Bullet>,
    pub requested_sounds: Vec<SoundId>,
}

/// The bullet created by a shoot action: it starts at the player's
/// center and moves at the muzzle speed along the player's current
/// rotation, with no inheritance of the player's own velocity.
pub open spec fn spec_new_bullet(p: Player) -> Bullet {
    Bullet {
        x: (p.x + PLAYER_SIZE / 2) as i64,
        y: (p.y + PLAYER_SIZE / 2) as i64,
        vx: scale_mul(MUZZLE_SPEED as int, cos_mdeg_spec(p.rot as int)) as i64,
        vy: (-scale_mul(MUZZLE_SPEED as int, sin_mdeg_spec(p.rot as int))) as i64,
        should_remove: false,
    }
}

/// Command interpretation on the player: turn impulses set the angular
/// speed, a thrust impulse sets the forward speed; idling and shooting
/// leave the player untouched.
pub open spec fn spec_apply_command(p: Player, c: Command) -> Player {
    match c {
        Command::Left => Player { vrot: TURN_RATE, ..p },
        Command::Right => Player { vrot: (-TURN_RATE) as i64, ..p },
        Command::Forward => Player { velocity: crate::entities::THRUST_IMPULSE, ..p },
        Command::Idle => p,
        Command::Shoot => p,
    }
}

/// The bullet collection after command interpretation: a shoot command
/// appends one new bullet unless the cap is already reached.
pub open spec fn spec_bullets_after_shoot(bs: Seq<Bullet>, p: Player, c: Command) -> Seq<Bullet> {
    match c {
        Command::Shoot => if bs.len() < MAX_BULLETS { bs.push(spec_new_bullet(p)) } else { bs },
        _ => bs,
    }
}

/// A bullet's bounding box overlaps an asteroid's.
pub open spec fn bullet_hits(b: Bullet, a: Asteroid) -> bool {
    rects_overlap(
        b.x as int, b.y as int, BULLET_SIZE as int, BULLET_SIZE as int,
        a.x as int, a.y as int, a.size as int, a.size as int,
    )
}

/// An asteroid's bounding box overlaps the player's.
pub open spec fn hits_player(a: Asteroid, p: Player) -> bool {
    rects_overlap(
        a.x as int, a.y as int, a.size as int, a.size as int,
        p.x as int, p.y as int, PLAYER_SIZE as int, PLAYER_SIZE as int,
    )
}

/// How many of the first `n` bullets overlap asteroid `a`.
pub open spec fn hit_count(a: Asteroid, bs: Seq<Bullet>, n: int) -> int
    decreases n,
{
    if n <= 0 {
        0
    } else {
        hit_count(a, bs, n - 1) + if bullet_hits(bs[n - 1], a) { 1 as int } else { 0 }
    }
}

/// How many bullet-asteroid pairs overlap, over the first `m` asteroids
/// and all bullets: the number of collisions scored this frame.
pub open spec fn total_hits(asts: Seq<Asteroid>, bs: Seq<Bullet>, m: int) -> int
    decreases m,
{
    if m <= 0 {
        0
    } else {
        total_hits(asts, bs, m - 1) + hit_count(asts[m - 1], bs, bs.len() as int)
    }
}

/// How many of the first `m` asteroids overlap the player: the number of
/// crash sounds queued this frame.
pub open spec fn crash_count(asts: Seq<Asteroid>, p: Player, m: int) -> int
    decreases m,
{
    if m <= 0 {
        0
    } else {
        crash_count(asts, p, m - 1) + if hits_player(asts[m - 1], p) { 1 as int } else { 0 }
    }
}

/// Some of the first `m` asteroids overlaps bullet `b`.
pub open spec fn hit_by_prefix(b: Bullet, asts: Seq<Asteroid>, m: int) -> bool {
    exists|k: int| 0 <= k < m && bullet_hits(b, asts[k])
}

/// Some of the first `n` bullets overlaps asteroid `a`.
pub open spec fn hits_any_prefix(a: Asteroid, bs: Seq<Bullet>, n: int) -> bool {
    exists|i: int| 0 <= i < n && bullet_hits(bs[i], a)
}

/// A bullet after the collision pass: flagged for removal when it
/// overlaps some asteroid, otherwise unchanged.
pub open spec fn spec_flag_bullet(b: Bullet, asts: Seq<Asteroid>) -> Bullet {
    if hit_by_prefix(b, asts, asts.len() as int) {
        Bullet { should_remove: true, ..b }
    } else {
        b
    }
}

/// An asteroid after the collision pass: flagged for removal when some
/// bullet overlaps it, otherwise unchanged.
pub open spec fn spec_flag_asteroid(a: Asteroid, bs: Seq<Bullet>) -> Asteroid {
    if hits_any_prefix(a, bs, bs.len() as int) {
        Asteroid { should_remove: true, ..a }
    } else {
        a
    }
}

/// The removal sweep on bullets: the flagged ones are filtered out and
/// the order of the survivors is preserved.
pub open spec fn spec_sweep_bullets(bs: Seq<Bullet>) -> Seq<Bullet>
    decreases bs.len(),
{
    if bs.len() == 0 {
        Seq::empty()
    } else {
        let rest = spec_sweep_bullets(bs.drop_last());
        if bs.last().should_remove {
            rest
        } else {
            rest.push(bs.last())
        }
    }
}

/// The removal sweep on asteroids: the flagged ones are filtered out and
/// the order of the survivors is preserved.
pub open spec fn spec_sweep_asteroids(s: Seq<Asteroid>) -> Seq<Asteroid>
    decreases s.len(),
{
    if s.len() == 0 {
        Seq::empty()
    } else {
        let rest = spec_sweep_asteroids(s.drop_last());
        if s.last().should_remove {
            rest
        } else {
            rest.push(s.last())
        }
    }
}

/// The player after the whole frame, the moved bullet collection before
/// flagging, and the moved asteroid collection before flagging: the
/// three deterministic intermediates the frame contract is stated over.
pub open spec fn spec_step_player(g: Game, c: Command) -> Player {
    spec_player_move(spec_apply_command(g.player, c))
}

/// The bullets after command interpretation and movement, before the
/// collision flags and the sweep.
pub open spec fn spec_step_bullets_moved(g: Game, c: Command) -> Seq<Bullet> {
    spec_bullets_after_shoot(g.bullets@, g.player, c).map_values(|b: Bullet| spec_bullet_move(b))
}

/// The asteroids after movement, before the collision flags and the
/// sweep.
pub open spec fn spec_step_asteroids_moved(g: Game) -> Seq<Asteroid> {
    g.asteroids@.map_values(|a: Asteroid| spec_asteroid_move(a))
}

/// A freshly spawned asteroid: unflagged, size and speed within the
/// spawner's fixed ranges, and placed on a play-field edge so that it
/// moves inward rather than immediately off-screen.
pub open spec fn spawn_ok(a: Asteroid) -> bool {
    &&& !a.should_remove
    &&& 8_000 <= a.size < 23_000
    &&& -5_000 <= a.vx <= 5_000
    &&& -5_000 <= a.vy <= 5_000
    &&& 0 <= a.x <= SCREEN_WIDTH
    &&& 0 <= a.y <= SCREEN_HEIGHT
    &&& {
        ||| (a.x == 0 && a.vx > 0)
        ||| (a.x == SCREEN_WIDTH - MILLI && a.vx <= 0)
        ||| (a.y == 0 && a.vy > 0)
        ||| (a.y == SCREEN_HEIGHT - MILLI && a.vy <= 0)
    }
}

/// The asteroid collection after one whole frame: each asteroid moved,
/// flagged against the moved bullets, and the flagged ones swept out.
pub open spec fn spec_frame_asteroids(asts: Seq<Asteroid>, bs: Seq<Bullet>) -> Seq<Asteroid> {
    let am = asts.map_values(|a: Asteroid| spec_asteroid_move(a));
    spec_sweep_asteroids(am.map_values(|a: Asteroid| spec_flag_asteroid(a, bs)))
}

/// What one frame in the playing state establishes, relating the state
/// after `update` to the state before it. Everything but the spawner's
/// random draw is pinned exactly; the spawned asteroid, when one
/// appears, is pinned up to `spawn_ok`.
pub open spec fn spec_update_ok(pre: Game, post: Game, c: Command) -> bool {
    let p2 = spec_step_player(pre, c);
    let bm = spec_step_bullets_moved(pre, c);
    let am = spec_step_asteroids_moved(pre);
    let swept = spec_frame_asteroids(pre.asteroids@, bm);
    let crashes = crash_count(am, p2, am.len() as int);
    &&& post.player == p2
    &&& post.frame == pre.frame + 1
    &&& post.score == pre.score + SCORE_BONUS * total_hits(am, bm, am.len() as int)
    &&& post.bullets@ == spec_sweep_bullets(bm.map_values(|b: Bullet| spec_flag_bullet(b, am)))
    &&& post.is_over == (crashes > 0)
    &&& post.requested_sounds@ == pre.requested_sounds@
        + Seq::new(crashes as nat, |i: int| SoundId::Crash)
    &&& {
        ||| post.asteroids@ == swept
        ||| (swept.len() < MAX_ASTEROIDS && post.asteroids@.len() == swept.len() + 1
            && post.asteroids@.subrange(0, swept.len() as int) == swept
            && spawn_ok(post.asteroids@.last()))
    }
}

impl Game {
    /// The state invariant: the player is well formed, every stored
    /// entity is well formed, the population caps hold, and frame and
    /// score are non-negative.
    pub open spec fn inv(self) -> bool {
        &&& self.player.wf()
        &&& self.bullets@.len() <= MAX_BULLETS
        &&& self.asteroids@.len() <= MAX_ASTEROIDS
        &&& forall|i: int| 0 <= i < self.asteroids@.len() ==> (#[trigger] self.asteroids@[i]).wf()
        &&& forall|i: int| 0 <= i < self.bullets@.len() ==> (#[trigger] self.bullets@[i]).wf()
        &&& 0 <= self.frame
        &&& 0 <= self.score
    }

    /// A fresh game: playing state, zero frame counter and score, the
    /// player at the center, no entities, no pending sounds, and a
    /// generator built from the given seed.
    pub fn new(seed: u64) -> (g: Game)
        ensures
            g.inv(),
            !g.is_over,
            g.frame == 0,
            g.score == 0,
            g.player == crate::entities::initial_player(),
            g.asteroids@ == Seq::<Asteroid>::empty(),
            g.bullets@ == Seq::<Bullet>::empty(),
            g.requested_sounds@ == Seq::<SoundId>::empty(),
    {
        let g = Game {
            rng: rng_from_seed(seed),
            is_over: false,
            frame: 0,
            player: Player::new(),
            score: 0,
            asteroids: Vec::new(),
            bullets: Vec::new(),
            requested_sounds: Vec::new(),
        };
        proof {
            assert(g.asteroids@ =~= Seq::<Asteroid>::empty());
            assert(g.bullets@ =~= Seq::<Bullet>::empty());
            assert(g.requested_sounds@ =~= Seq::<SoundId>::empty());
        }
        g
    }

    /// The shoot action: a no-op when the bullet cap is reached,
    /// otherwise exactly one new bullet is appended and everything else
    /// is left unchanged.
    pub fn shoot(&mut self)
        requires
            old(self).inv(),
        ensures
            final(self).inv(),
            old(self).bullets@.len() >= MAX_BULLETS ==> *final(self) == *old(self),
            old(self).bullets@.len() < MAX_BULLETS ==> {
                &&& final(self).bullets@
                    == old(self).bullets@.push(spec_new_bullet(old(self).player))
                &&& *final(self) == (Game { bullets: final(self).bullets, ..*old(self) })
            },
    {
        if self.bullets.len() >= MAX_BULLETS {
            return;
        }
        let c = cos_mdeg(self.player.rot);
        let s = sin_mdeg(self.player.rot);
        let vx = mul_trig(MUZZLE_SPEED, c);
        let vy = mul_trig(MUZZLE_SPEED, s);
        let bullet = Bullet {
            x: self.player.x + PLAYER_SIZE / 2,
            y: self.player.y + PLAYER_SIZE / 2,
            vx,
            vy: -vy,
            should_remove: false,
        };
        self.bullets.push(bullet);
    }

    /// Spawns one asteroid at a play-field edge: random size, speed and
    /// heading within the fixed ranges, entry edge chosen by a coin flip
    /// and matched to the velocity's sign so the asteroid moves inward.
    pub fn spawn_asteroid(&mut self)
        requires
            old(self).inv(),
            old(self).asteroids@.len() < MAX_ASTEROIDS,
        ensures
            final(self).inv(),
            final(self).asteroids@.len() == old(self).asteroids@.len() + 1,
            final(self).asteroids@.subrange(0, old(self).asteroids@.len() as int)
                == old(self).asteroids@,
            spawn_ok(final(self).asteroids@.last()),
            final(self).is_over == old(self).is_over,
            final(self).frame == old(self).frame,
            final(self).score == old(self).score,
            final(self).player == old(self).player,
            final(self).bullets == old(self).bullets,
            final(self).requested_sounds == old(self).requested_sounds,
    {
        let size: i64 = 8_000 + rng_below(&mut self.rng, 15_000) as i64;
        let v: i64 = rng_below(&mut self.rng, 5_000) as i64;
        let rot: i64 = rng_below(&mut self.rng, 360_000) as i64;
        let c = cos_mdeg(rot);
        let s = sin_mdeg(rot);
        let vx = mul_trig(v, c);
        let vy_up = mul_trig(v, s);
        let vy = -vy_up;
        let x: i64;
        let y: i64;
        if rng_below(&mut self.rng, 2) == 0 {
            if vx > 0 {
                x = 0;
            } else {
                x = SCREEN_WIDTH - MILLI;
            }
            y = rng_below(&mut self.rng, SCREEN_HEIGHT as u64) as i64;
        } else {
            if vy > 0 {
                y = 0;
            } else {
                y = SCREEN_HEIGHT - MILLI;
            }
            x = rng_below(&mut self.rng, SCREEN_WIDTH as u64) as i64;
        }
        let asteroid = Asteroid { x, y, vx, vy, size, should_remove: false };
        self.asteroids.push(asteroid);
        proof {
            assert(self.asteroids@.subrange(0, old(self).asteroids@.len() as int)
                =~= old(self).asteroids@);
        }
    }

    /// One frame of the state machine. In the terminal game-over state
    /// the call is a no-op; otherwise the command is interpreted, every
    /// entity advances, collisions are resolved and scored, flagged
    /// entities are swept out, the spawner gate runs, and the frame
    /// counter is incremented.
    pub fn update(&mut self, command: Command)
        requires
            old(self).inv(),
            old(self).is_over
                || (old(self).frame < i64::MAX && old(self).score + 9_000 <= i64::MAX),
        ensures
            final(self).inv(),
            old(self).is_over ==> *final(self) == *old(self),
            !old(self).is_over ==> spec_update_ok(*old(self), *final(self), command),
    {
        if self.is_over {
            return;
        }
        let ghost pre = *self;

        match command {
            Command::Idle => {},
            Command::Left => self.player.rotate(TURN_RATE),
            Command::Right => self.player.rotate(-TURN_RATE),
            Command::Forward => self.player.up(),
            Command::Shoot => self.shoot(),
        }
        proof {
            assert(self.player == spec_apply_command(pre.player, command));
            assert(self.bullets@
                == spec_bullets_after_shoot(pre.bullets@, pre.player, command));
            assert(self.player.wf());
            assert(forall|t: int| 0 <= t < self.bullets@.len()
                ==> (#[trigger] self.bullets@[t]).wf());
            assert(self.asteroids@ == pre.asteroids@);
        }
        let ghost bs1 = self.bullets@;

        self.player.do_move();
        let ghost p2 = self.player;
        proof {
            assert(p2 == spec_step_player(pre, command));
        }

        move_bullets(&mut self.bullets);
        let ghost bm = self.bullets@;
        proof {
            assert(bm == spec_step_bullets_moved(pre, command));
            assert forall|t: int| 0 <= t < bm.len() implies
                -1_000_000 <= (#[trigger] bm[t]).x <= 1_000_000
                && -1_000_000 <= bm[t].y <= 1_000_000 by {
                assert(bm[t] == spec_bullet_move(bs1[t]));
                assert(bs1[t].wf());
            }
        }

        let ghost am = self.asteroids@.map_values(|a: Asteroid| spec_asteroid_move(a));
        collide_phase(
            &mut self.asteroids,
            &mut self.bullets,
            &self.player,
            &mut self.score,
            &mut self.is_over,
            &mut self.requested_sounds,
        );
        proof {
            assert(am == spec_step_asteroids_moved(pre));
            assert(self.asteroids@ == am.map_values(|a: Asteroid| spec_flag_asteroid(a, bm)));
            assert(self.bullets@ == bm.map_values(|b: Bullet| spec_flag_bullet(b, am)));
        }

        sweep_bullets(&mut self.bullets);
        sweep_asteroids(&mut self.asteroids);
        proof {
            lemma_boundary_kill_bullets(bs1, am);
            lemma_boundary_kill_asteroids(pre.asteroids@, bm);
            assert(self.bullets@ == spec_sweep_bullets(
                bs1.map_values(|b: Bullet| spec_bullet_move(b)).map_values(
                    |b: Bullet| spec_flag_bullet(b, am),
                ),
            ));
            assert(self.asteroids@ == spec_frame_asteroids(pre.asteroids@, bm));
        }

        let gate = rng_below(&mut self.rng, 100);
        if gate < 7 && self.asteroids.len() < MAX_ASTEROIDS {
            self.spawn_asteroid();
        }
        self.frame = self.frame + 1;
    }
}

proof fn lemma_sweep_bullets_take_step(s: Seq<Bullet>, i: int)
    requires
        0 <= i < s.len(),
    ensures
        spec_sweep_bullets(s.take(i + 1)) == if s[i].should_remove {
            spec_sweep_bullets(s.take(i))
        } else {
            spec_sweep_bullets(s.take(i)).push(s[i])
        },
{
    assert(s.take(i + 1).drop_last() =~= s.take(i));
    assert(s.take(i + 1).last() == s[i]);
}

proof fn lemma_sweep_asteroids_take_step(s: Seq<Asteroid>, i: int)
    requires
        0 <= i < s.len(),
    ensures
        spec_sweep_asteroids(s.take(i + 1)) == if s[i].should_remove {
            spec_sweep_asteroids(s.take(i))
        } else {
            spec_sweep_asteroids(s.take(i)).push(s[i])
        },
{
    assert(s.take(i + 1).drop_last() =~= s.take(i));
    assert(s.take(i + 1).last() == s[i]);
}

proof fn lemma_sweep_asteroids_wf(s: Seq<Asteroid>)
    requires
        forall|k: int| 0 <= k < s.len()
            ==> ((#[trigger] s[k]).should_remove || s[k].wf()),
    ensures
        spec_sweep_asteroids(s).len() <= s.len(),
        forall|t: int| 0 <= t < spec_sweep_asteroids(s).len()
            ==> !(#[trigger] spec_sweep_asteroids(s)[t]).should_remove
                && spec_sweep_asteroids(s)[t].wf(),
    decreases s.len(),
{
    if s.len() > 0 {
        assert(forall|k: int| 0 <= k < s.drop_last().len()
            ==> (#[trigger] s.drop_last()[k]) == s[k]);
        lemma_sweep_asteroids_wf(s.drop_last());
    }
}

proof fn lemma_sweep_bullets_wf(s: Seq<Bullet>)
    requires
        forall|k: int| 0 <= k < s.len()
            ==> ((#[trigger] s[k]).should_remove || s[k].wf()),
    ensures
        spec_sweep_bullets(s).len() <= s.len(),
        forall|t: int| 0 <= t < spec_sweep_bullets(s).len()
            ==> !(#[trigger] spec_sweep_bullets(s)[t]).should_remove
                && spec_sweep_bullets(s)[t].wf(),
    decreases s.len(),
{
    if s.len() > 0 {
        assert(forall|k: int| 0 <= k < s.drop_last().len()
            ==> (#[trigger] s.drop_last()[k]) == s[k]);
        lemma_sweep_bullets_wf(s.drop_last());
    }
}

/// Boundary-kill law for asteroids: after one frame's movement, flagging
/// and sweep, every asteroid still in the collection is unflagged and
/// inside the play-field - one whose motion crossed the boundary was
/// flagged by the move and is absent after the sweep.
pub proof fn lemma_boundary_kill_asteroids(asts: Seq<Asteroid>, bs: Seq<Bullet>)
    requires
        forall|k: int| 0 <= k < asts.len() ==> (#[trigger] asts[k]).wf(),
    ensures
        spec_frame_asteroids(asts, bs).len() <= asts.len(),
        forall|t: int| 0 <= t < spec_frame_asteroids(asts, bs).len()
            ==> !(#[trigger] spec_frame_asteroids(asts, bs)[t]).should_remove
                && spec_frame_asteroids(asts, bs)[t].wf(),
{
    let am = asts.map_values(|a: Asteroid| spec_asteroid_move(a));
    let flagged = am.map_values(|a: Asteroid| spec_flag_asteroid(a, bs));
    assert(forall|k: int| 0 <= k < flagged.len()
        ==> ((#[trigger] flagged[k]).should_remove || flagged[k].wf()));
    lemma_sweep_asteroids_wf(flagged);
}

/// Boundary-kill law for bullets: the moved and swept bullet collection
/// holds only unflagged bullets inside the play-field.
pub proof fn lemma_boundary_kill_bullets(bs: Seq<Bullet>, asts: Seq<Asteroid>)
    requires
        forall|k: int| 0 <= k < bs.len() ==> (#[trigger] bs[k]).wf(),
    ensures
        ({
            let bm = bs.map_values(|b: Bullet| spec_bullet_move(b));
            let kept = spec_sweep_bullets(bm.map_values(|b: Bullet| spec_flag_bullet(b, asts)));
            &&& kept.len() <= bs.len()
            &&& forall|t: int| 0 <= t < kept.len()
                ==> !(#[trigger] kept[t]).should_remove && kept[t].wf()
        }),
{
    let bm = bs.map_values(|b: Bullet| spec_bullet_move(b));
    let flagged = bm.map_values(|b: Bullet| spec_flag_bullet(b, asts));
    assert(forall|k: int| 0 <= k < flagged.len()
        ==> ((#[trigger] flagged[k]).should_remove || flagged[k].wf()));
    lemma_sweep_bullets_wf(flagged);
}

/// Moves every bullet one frame.
fn move_bullets(v: &mut Vec<Bullet>)
    requires
        forall|k: int| 0 <= k < old(v)@.len() ==> (#[trigger] old(v)@[k]).wf(),
    ensures
        final(v)@ == old(v)@.map_values(|b: Bullet| spec_bullet_move(b)),
{
    let ghost bs0 = v@;
    let mut i: usize = 0;
    while i < v.len()
        invariant
            i <= bs0.len(),
            v@.len() == bs0.len(),
            forall|k: int| 0 <= k < bs0.len() ==> (#[trigger] bs0[k]).wf(),
            forall|k: int| 0 <= k < i ==> (#[trigger] v@[k]) == spec_bullet_move(bs0[k]),
            forall|k: int| i <= k < bs0.len() ==> (#[trigger] v@[k]) == bs0[k],
        decreases bs0.len() - i,
    {
        let mut b = v[i];
        b.do_move();
        v[i] = b;
        i += 1;
    }
    proof {
        assert(v@ =~= bs0.map_values(|b: Bullet| spec_bullet_move(b)));
    }
}

/// The collision pass of one frame: each asteroid is moved, then tested
/// against every bullet - each overlapping pair is flagged and scored -
/// and against the player, whose overlap sets game-over and queues one
/// crash sound per overlapping asteroid.
fn collide_phase(
    asts: &mut Vec<Asteroid>,
    bls: &mut Vec<Bullet>,
    player: &Player,
    score: &mut i64,
    over: &mut bool,
    sounds: &mut Vec<SoundId>,
)
    requires
        forall|k: int| 0 <= k < old(asts)@.len() ==> (#[trigger] old(asts)@[k]).wf(),
        forall|t: int| 0 <= t < old(bls)@.len() ==> {
            &&& -1_000_000 <= (#[trigger] old(bls)@[t]).x <= 1_000_000
            &&& -1_000_000 <= old(bls)@[t].y <= 1_000_000
        },
        old(asts)@.len() <= MAX_ASTEROIDS,
        old(bls)@.len() <= MAX_BULLETS,
        player.wf(),
        0 <= *old(score),
        *old(score) + 9_000 <= i64::MAX,
        *old(over) == false,
    ensures
        ({
            let am = old(asts)@.map_values(|a: Asteroid| spec_asteroid_move(a));
            let bm = old(bls)@;
            let crashes = crash_count(am, *player, am.len() as int);
            &&& final(asts)@ == am.map_values(|a: Asteroid| spec_flag_asteroid(a, bm))
            &&& final(bls)@ == bm.map_values(|b: Bullet| spec_flag_bullet(b, am))
            &&& *final(score) == *old(score) + SCORE_BONUS * total_hits(am, bm, am.len() as int)
            &&& *old(score) <= *final(score) <= *old(score) + 9_000
            &&& *final(over) == (crashes > 0)
            &&& final(sounds)@ == old(sounds)@
                + Seq::new(crashes as nat, |q: int| SoundId::Crash)
        }),
{
    let ghost as0 = asts@;
    let ghost am = as0.map_values(|a: Asteroid| spec_asteroid_move(a));
    let ghost bm = bls@;
    let ghost score0 = *score;
    let ghost sounds0 = sounds@;
    let mut j: usize = 0;
    while j < asts.len()
        invariant
            j <= as0.len(),
            asts@.len() == as0.len(),
            as0.len() <= MAX_ASTEROIDS,
            bm.len() <= MAX_BULLETS,
            am == as0.map_values(|a: Asteroid| spec_asteroid_move(a)),
            forall|k: int| 0 <= k < as0.len() ==> (#[trigger] as0[k]).wf(),
            forall|t: int| 0 <= t < bm.len() ==> {
                &&& -1_000_000 <= (#[trigger] bm[t]).x <= 1_000_000
                &&& -1_000_000 <= bm[t].y <= 1_000_000
            },
            bls@.len() == bm.len(),
            forall|t: int| 0 <= t < bm.len() ==> (#[trigger] bls@[t]) == (Bullet {
                should_remove: bm[t].should_remove || hit_by_prefix(bm[t], am, j as int),
                ..bm[t]
            }),
            forall|k: int| 0 <= k < j ==> (#[trigger] asts@[k]) == (Asteroid {
                should_remove: am[k].should_remove
                    || hits_any_prefix(am[k], bm, bm.len() as int),
                ..am[k]
            }),
            forall|k: int| j <= k < as0.len() ==> (#[trigger] asts@[k]) == as0[k],
            0 <= total_hits(am, bm, j as int) <= 3 * j,
            *score == score0 + SCORE_BONUS * total_hits(am, bm, j as int),
            0 <= score0,
            score0 + 9_000 <= i64::MAX,
            0 <= crash_count(am, *player, j as int) <= j,
            *over == (crash_count(am, *player, j as int) > 0),
            sounds@ == sounds0
                + Seq::new(crash_count(am, *player, j as int) as nat, |q: int| SoundId::Crash),
            player.wf(),
        decreases as0.len() - j,
    {
        let mut a = asts[j];
        a.do_move();
        proof {
            assert(as0[j as int].wf());
            assert(a == am[j as int]);
            assert(hits_any_prefix(am[j as int], bm, 0) == false);
            assert(hit_count(am[j as int], bm, 0) == 0);
        }
        let mut i: usize = 0;
        while i < bls.len()
            invariant
                i <= bm.len(),
                bls@.len() == bm.len(),
                bm.len() <= MAX_BULLETS,
                j < as0.len(),
                as0.len() <= MAX_ASTEROIDS,
                forall|t: int| 0 <= t < bm.len() ==> {
                    &&& -1_000_000 <= (#[trigger] bm[t]).x <= 1_000_000
                    &&& -1_000_000 <= bm[t].y <= 1_000_000
                },
                -2_000_000 <= am[j as int].x <= 2_000_000,
                -2_000_000 <= am[j as int].y <= 2_000_000,
                0 <= am[j as int].size <= 23_000,
                a == (Asteroid {
                    should_remove: am[j as int].should_remove
                        || hits_any_prefix(am[j as int], bm, i as int),
                    ..am[j as int]
                }),
                forall|t: int| 0 <= t < bm.len() ==> (#[trigger] bls@[t]) == (Bullet {
                    should_remove: bm[t].should_remove || hit_by_prefix(bm[t], am, j as int)
                        || (t < i && bullet_hits(bm[t], am[j as int])),
                    ..bm[t]
                }),
                0 <= total_hits(am, bm, j as int) <= 3 * j,
                0 <= hit_count(am[j as int], bm, i as int) <= i,
                *score == score0 + SCORE_BONUS
                    * (total_hits(am, bm, j as int) + hit_count(am[j as int], bm, i as int)),
                0 <= score0,
                score0 + 9_000 <= i64::MAX,
            decreases bm.len() - i,
        {
            let b = bls[i];
            if is_collide(b.x, b.y, BULLET_SIZE, BULLET_SIZE, a.x, a.y, a.size, a.size) {
                let mut bb = bls[i];
                bb.should_remove = true;
                bls[i] = bb;
                a.should_remove = true;
                *score = *score + SCORE_BONUS;
            }
            proof {
                assert(bullet_hits(bm[i as int], am[j as int]) == rects_overlap(
                    bm[i as int].x as int, bm[i as int].y as int,
                    BULLET_SIZE as int, BULLET_SIZE as int,
                    am[j as int].x as int, am[j as int].y as int,
                    am[j as int].size as int, am[j as int].size as int,
                ));
                assert(hit_count(am[j as int], bm, i as int + 1) == hit_count(
                    am[j as int], bm, i as int,
                ) + if bullet_hits(bm[i as int], am[j as int]) { 1 as int } else { 0 });
            }
            i += 1;
        }
        proof {
            assert(a == spec_flag_asteroid(am[j as int], bm));
        }
        if is_collide(a.x, a.y, a.size, a.size, player.x, player.y, PLAYER_SIZE, PLAYER_SIZE) {
            *over = true;
            sounds.push(SoundId::Crash);
        }
        asts[j] = a;
        proof {
            let cc = crash_count(am, *player, j as int);
            assert(crash_count(am, *player, j as int + 1) == cc
                + if hits_player(am[j as int], *player) { 1 as int } else { 0 });
            assert(hits_player(am[j as int], *player) == rects_overlap(
                am[j as int].x as int, am[j as int].y as int,
                am[j as int].size as int, am[j as int].size as int,
                player.x as int, player.y as int,
                PLAYER_SIZE as int, PLAYER_SIZE as int,
            ));
            if hits_player(am[j as int], *player) {
                assert(sounds@ =~= sounds0
                    + Seq::new((cc + 1) as nat, |q: int| SoundId::Crash));
            }
            assert(total_hits(am, bm, j as int + 1) == total_hits(am, bm, j as int)
                + hit_count(am[j as int], bm, bm.len() as int));
        }
        j += 1;
    }
    proof {
        assert(asts@ =~= am.map_values(|a: Asteroid| spec_flag_asteroid(a, bm)));
        assert(bls@ =~= bm.map_values(|b: Bullet| spec_flag_bullet(b, am)));
    }
}

/// The removal sweep on the bullet collection.
fn sweep_bullets(v: &mut Vec<Bullet>)
    ensures
        final(v)@ == spec_sweep_bullets(old(v)@),
{
    let ghost s = v@;
    let mut kept: Vec<Bullet> = Vec::new();
    let mut i: usize = 0;
    while i < v.len()
        invariant
            i <= s.len(),
            v@ == s,
            kept@ == spec_sweep_bullets(s.take(i as int)),
        decreases s.len() - i,
    {
        proof {
            lemma_sweep_bullets_take_step(s, i as int);
        }
        let b = v[i];
        if !b.should_remove {
            kept.push(b);
        }
        i += 1;
    }
    proof {
        assert(s.take(s.len() as int) =~= s);
    }
    *v = kept;
}

/// The removal sweep on the asteroid collection.
fn sweep_asteroids(v: &mut Vec<Asteroid>)
    ensures
        final(v)@ == spec_sweep_asteroids(old(v)@),
{
    let ghost s = v@;
    let mut kept: Vec<Asteroid> = Vec::new();
    let mut i: usize = 0;
    while i < v.len()
        invariant
            i <= s.len(),
            v@ == s,
            kept@ == spec_sweep_asteroids(s.take(i as int)),
        decreases s.len() - i,
    {
        proof {
            lemma_sweep_asteroids_take_step(s, i as int);
        }
        let a = v[i];
        if !a.should_remove {
            kept.push(a);
        }
        i += 1;
    }
    proof {
        assert(s.take(s.len() as int) =~= s);
    }
    *v = kept;
}

} // verus!
