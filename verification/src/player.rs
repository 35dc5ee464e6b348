//! The player body: control-input processing, per-substep collision
//! repulsion and motion-accumulator updates.
//!
//! Every mutation is mirrored by a spec function of the old state, so
//! each tick is a deterministic integer function of its inputs.

use vstd::prelude::*;

use crate::fx::{cl, fxmul, tdiv, tdiv64, FX_LIM, FX_ONE};
use crate::tiles::{seg_ok, segs_ok, CollisionSegment};
use crate::vec2::{spec_alignment, spec_norm, spec_proj_factor, spec_vadd, spec_vneg, spec_vscale,
    spec_vsub, spec_vunit, v_ok, Vec2};
use crate::world::{spec_from_world_coords, spec_get_tile, spec_to_world_coords, World};
use crate::{BUTTON_2, BUTTON_DOWN, BUTTON_LEFT, BUTTON_RIGHT, BUTTON_UP};

verus! {

/// The player's mutable state, in milli-pixel units.
#[derive(Clone, Copy)]
pub struct Player {
    /// World position; meaningful only once `placed` is set.
    pub pos: Vec2,
    /// World velocity per simulation tick.
    pub vel: Vec2,
    /// Cosmetic animation phase, wrapping.
    pub anim_timer: u8,
    /// Stamina-like resource in [0, 300000], decaying toward 300000.
    pub power: i64,
    /// Horizontal jump aim in [-1000, 1000] while the aim button is held.
    pub jump_dir: Option<i64>,
    /// Ticks left in which a landing still fires a buffered jump.
    pub remembered_jump: u8,
    /// Whether some surface held the player up this tick.
    pub grounded: bool,
    /// Slope direction of the ground, used to bias lateral movement.
    pub ground_level: Vec2,
    /// Confidence score of `ground_level` (its x component).
    pub ground_level_score: i64,
    /// Whether a spawn position has been assigned yet. This replaces
    /// the not-a-number position sentinel of a float representation.
    pub placed: bool,
}

/// Power stays within its resource bound.
pub const POWER_CEIL: i64 = 300_000;

/// Well-formedness of the player state.
pub open spec fn player_wf(p: Player) -> bool {
    &&& v_ok(p.pos)
    &&& v_ok(p.vel)
    &&& 0 <= p.power <= POWER_CEIL
    &&& match p.jump_dir {
        Some(d) => -FX_ONE <= d <= FX_ONE,
        None => true,
    }
    &&& (p.remembered_jump > 0 ==> p.jump_dir is Some)
    &&& v_ok(p.ground_level)
    &&& 0 <= p.ground_level_score <= FX_LIM
}

/// Jump impulse factor in thousandths: down softens, up empowers.
pub open spec fn spec_jump_strength(cur: u8) -> i64 {
    let down = cur & BUTTON_DOWN != 0;
    let up = cur & BUTTON_UP != 0;
    if down && up {
        850
    } else if down {
        700
    } else if up {
        1000
    } else {
        900
    }
}

/// One control step as a function of the old state and both button
/// masks; mirrors `Player::control` exactly.
pub open spec fn spec_control(p: Player, prev: u8, cur: u8) -> Player {
    let aiming = prev & BUTTON_2 != 0;
    // Jump-aim state machine.
    let jd_adj = if aiming {
        let jd0 = match p.jump_dir {
            Some(d) => d as int,
            None => 0,
        };
        let jd1 = jd0 - (if cur & BUTTON_LEFT != 0 {
            30int
        } else {
            0int
        }) + (if cur & BUTTON_RIGHT != 0 {
            30int
        } else {
            0int
        });
        let jd2 = if jd1 < -1000 {
            -1000int
        } else if jd1 > 1000 {
            1000int
        } else {
            jd1
        };
        Some(jd2 as i64)
    } else {
        p.jump_dir
    };
    let do_jump_a = aiming && cur & BUTTON_2 == 0 && p.grounded;
    let rem_a: u8 = if aiming && cur & BUTTON_2 == 0 && !p.grounded {
        12u8
    } else {
        p.remembered_jump
    };
    // Desired direction and power budget when not aiming.
    let brake = !aiming && p.grounded && cur & BUTTON_DOWN != 0;
    let dir_a = if aiming {
        Vec2 { x: 0, y: 0 }
    } else if !p.grounded {
        Vec2 {
            x: ((if cur & BUTTON_RIGHT != 0 {
                1000int
            } else {
                0int
            }) - (if cur & BUTTON_LEFT != 0 {
                1000int
            } else {
                0int
            })) as i64,
            y: ((if cur & BUTTON_DOWN != 0 {
                1000int
            } else {
                0int
            }) - (if cur & BUTTON_UP != 0 {
                1000int
            } else {
                0int
            })) as i64,
        }
    } else {
        let d0 = Vec2 { x: 0, y: 0 };
        let d1 = if cur & BUTTON_LEFT != 0 {
            spec_vsub(d0, p.ground_level)
        } else {
            d0
        };
        if cur & BUTTON_RIGHT != 0 {
            spec_vadd(d1, p.ground_level)
        } else {
            d1
        }
    };
    let movp_a: int = if aiming {
        0
    } else if brake {
        tdiv(p.power as int, 5)
    } else if p.grounded {
        tdiv(p.power as int, 20)
    } else {
        tdiv(p.power as int, 200)
    };
    let dir_b = if brake {
        spec_vneg(p.vel)
    } else {
        dir_a
    };
    // Buffered-jump resolution.
    let rem_pos = rem_a > 0;
    let do_jump = do_jump_a || (rem_pos && p.grounded && p.vel.y < 0);
    let rem_b: u8 = if rem_pos {
        (rem_a - 1) as u8
    } else {
        rem_a
    };
    let jd_b = if !rem_pos && prev & BUTTON_2 == 0 {
        None
    } else {
        jd_adj
    };
    // Jump firing.
    let vel_c = if do_jump && p.vel.y > 0 {
        Vec2 { x: p.vel.x, y: 0 }
    } else {
        p.vel
    };
    let dir_c = if do_jump {
        Vec2 {
            x: (match jd_b {
                Some(d) => d,
                None => 0,
            }),
            y: -1000i64,
        }
    } else {
        dir_b
    };
    let movp_c: int = if do_jump {
        cl(tdiv(p.power * spec_jump_strength(cur), FX_ONE as int))
    } else {
        movp_a
    };
    let jd_c = if do_jump {
        None
    } else {
        jd_b
    };
    let rem_c: u8 = if do_jump {
        0u8
    } else {
        rem_b
    };
    // Impulse.
    let dirnorm = spec_norm(dir_c);
    let spend = movp_c > 100 && dirnorm > 100;
    let vel_d = if spend {
        spec_vadd(vel_c, spec_vscale(spec_vunit(dir_c), movp_c as i64))
    } else {
        vel_c
    };
    let pow_d: int = if spend {
        p.power - movp_c
    } else {
        p.power as int
    };
    // Regeneration toward the ceiling.
    let pow_e: int = tdiv(95 * pow_d, 100) + 15_000;
    // Animation.
    let anim: u8 = if p.grounded && (vel_d.x > 5000 || vel_d.x < -5000) {
        if p.anim_timer == 255 {
            0u8
        } else {
            (p.anim_timer + 1) as u8
        }
    } else {
        p.anim_timer
    };
    Player {
        vel: vel_d,
        anim_timer: anim,
        power: pow_e as i64,
        jump_dir: jd_c,
        remembered_jump: rem_c,
        ..p
    }
}

/// Exponential regeneration of power toward the ceiling.
pub open spec fn spec_power_regen(p: int) -> int {
    tdiv(95 * p, 100) + 15_000
}

impl Player {
    /// A fresh player, not yet placed in the world.
    pub fn new() -> (r: Player)
        ensures
            r == spec_player_new(),
            player_wf(r),
    {
        Player {
            pos: Vec2 { x: 0, y: 0 },
            vel: Vec2 { x: 0, y: 0 },
            power: 50_000,
            anim_timer: 0,
            grounded: false,
            jump_dir: None,
            remembered_jump: 0,
            ground_level: Vec2 { x: 1000, y: 0 },
            ground_level_score: 300,
            placed: false,
        }
    }

    /// Jump impulse factor for the held buttons, in thousandths.
    pub fn jump_strength(cur: u8) -> (r: i64)
        ensures
            r == spec_jump_strength(cur),
    {
        let down = cur & BUTTON_DOWN != 0;
        let up = cur & BUTTON_UP != 0;
        if down && up {
            850
        } else if down {
            700
        } else if up {
            1000
        } else {
            900
        }
    }

    /// Process one tick of control input.
    #[verifier::rlimit(60)]
    pub fn control(&mut self, prev: u8, cur: u8)
        requires
            player_wf(*old(self)),
        ensures
            *final(self) == spec_control(*old(self), prev, cur),
            player_wf(*final(self)),
    {
        let ghost p = *self;
        let mut dir = Vec2::new(0, 0);
        let mut movpower: i64 = 0;

        let mut do_jump_now = false;
        if prev & BUTTON_2 != 0 {
            let jd0: i64 = match self.jump_dir {
                Some(d) => d,
                None => 0,
            };
            let mut jd: i64 = jd0;
            if cur & BUTTON_LEFT != 0 {
                jd = jd - 30;
            }
            if cur & BUTTON_RIGHT != 0 {
                jd = jd + 30;
            }
            if jd < -1000 {
                jd = -1000;
            } else if jd > 1000 {
                jd = 1000;
            }
            self.jump_dir = Some(jd);
            if cur & BUTTON_2 == 0 {
                if self.grounded {
                    do_jump_now = true;
                } else {
                    self.remembered_jump = 12;
                }
            }
        } else {
            let mut brake = false;
            if !self.grounded {
                let dx: i64 = (if cur & BUTTON_RIGHT != 0 {
                    1000i64
                } else {
                    0i64
                }) - (if cur & BUTTON_LEFT != 0 {
                    1000i64
                } else {
                    0i64
                });
                let dy: i64 = (if cur & BUTTON_DOWN != 0 {
                    1000i64
                } else {
                    0i64
                }) - (if cur & BUTTON_UP != 0 {
                    1000i64
                } else {
                    0i64
                });
                dir = Vec2::new(dx, dy);
            } else {
                if cur & BUTTON_LEFT != 0 {
                    dir = dir.vsub(self.ground_level);
                }
                if cur & BUTTON_RIGHT != 0 {
                    dir = dir.vadd(self.ground_level);
                }
                if cur & BUTTON_DOWN != 0 {
                    brake = true;
                }
            }
            movpower = if self.grounded {
                tdiv64(self.power, 20)
            } else {
                tdiv64(self.power, 200)
            };
            if brake {
                dir = self.vel.vneg();
                movpower = tdiv64(self.power, 5);
            }
        }

        if self.remembered_jump > 0 {
            if self.grounded && self.vel.y < 0 {
                do_jump_now = true;
            }
            self.remembered_jump = self.remembered_jump - 1;
        } else {
            if prev & BUTTON_2 == 0 {
                self.jump_dir = None;
            }
        }

        if do_jump_now {
            if self.vel.y > 0 {
                self.vel = Vec2::new(self.vel.x, 0);
            }
            let jd: i64 = match self.jump_dir {
                Some(d) => d,
                None => 0,
            };
            dir = Vec2::new(jd, -1000);
            let strength = Player::jump_strength(cur);
            movpower = fxmul(self.power, strength);
            self.jump_dir = None;
            self.remembered_jump = 0;
        }

        let dirnorm = dir.norm();
        if movpower > 100 && dirnorm > 100 {
            let dir_u = dir.vunit();
            self.vel = self.vel.vadd(dir_u.vscale(movpower));
            proof {
                if do_jump_now {
                    crate::fx::lemma_spend_le(p.power as int, spec_jump_strength(cur) as int);
                }
            }
            self.power = self.power - movpower;
        }

        proof {
            crate::fx::lemma_tdiv_ordered(95 * self.power, 95 * POWER_CEIL, 100);
        }
        self.power = tdiv64(95 * self.power, 100) + 15_000;

        if self.grounded && (self.vel.x > 5000 || self.vel.x < -5000) {
            if self.anim_timer == 255 {
                self.anim_timer = 0;
            } else {
                self.anim_timer = self.anim_timer + 1;
            }
        }
    }
}

/// The separation vector (from the projected force point to the
/// player) of one segment, with its length.
pub open spec fn spec_seg_candidate(ppos: Vec2, center: Vec2, s: CollisionSegment) -> (Vec2, i64) {
    let pos1 = spec_vadd(center, s.rp1);
    let pos2 = spec_vadd(center, s.rp2);
    let a = spec_vsub(ppos, pos1);
    let b = spec_vsub(pos2, pos1);
    let t = spec_proj_factor(a, b);
    let proj = spec_vadd(pos1, spec_vscale(b, t));
    let v = spec_vsub(ppos, proj);
    (v, spec_norm(v))
}

/// Fold of the nearest-segment selection from index `i` onward:
/// the accumulator is `(attained distance, vector, length, segment)`,
/// and a later segment wins only with a strictly smaller
/// `length + radius`, so the first of equals is kept.
pub open spec fn spec_choose_from(
    ppos: Vec2,
    center: Vec2,
    cfg: Seq<CollisionSegment>,
    i: int,
    acc: (int, Vec2, i64, CollisionSegment),
) -> (int, Vec2, i64, CollisionSegment)
    decreases cfg.len() - i,
{
    if i < 0 || i >= cfg.len() {
        acc
    } else {
        let (v, vn) = spec_seg_candidate(ppos, center, cfg[i]);
        let key = vn + cfg[i].rad;
        if acc.0 > key {
            spec_choose_from(ppos, center, cfg, i + 1, (key, v, vn, cfg[i]))
        } else {
            spec_choose_from(ppos, center, cfg, i + 1, acc)
        }
    }
}

/// The nearest effective segment of a tile for a player position.
pub open spec fn spec_chosen(ppos: Vec2, center: Vec2, cfg: Seq<CollisionSegment>) -> (
    int,
    Vec2,
    i64,
    CollisionSegment,
) {
    spec_choose_from(ppos, center, cfg, 0, (i64::MAX as int, Vec2 { x: 0, y: 0 }, 0, cfg[0]))
}

/// One tile's soft repulsion applied to the player and the
/// acceleration accumulator; mirrors `Player::repel_tile` exactly.
pub open spec fn spec_repel_tile(
    p: Player,
    center: Vec2,
    cfg: Seq<CollisionSegment>,
    acc: Vec2,
) -> (Player, Vec2) {
    if cfg.len() == 0 {
        (p, acc)
    } else {
        let chosen = spec_chosen(p.pos, center, cfg);
        let v = chosen.1;
        let vn = chosen.2;
        let seg = chosen.3;
        let radius = 1500 + seg.rad;
        if vn < radius + 3000 {
            let unit = spec_vunit(v);
            let accel = spec_alignment(p.vel, v);
            let fade = 1000 - tdiv(vn - radius, 3);
            let grounding = fade > 10 && unit.y < -500;
            let grounded2 = grounding || p.grounded;
            let g0 = spec_vunit(spec_vsub(seg.rp2, seg.rp1));
            let g1 = if g0.x < 0 {
                spec_vneg(g0)
            } else {
                g0
            };
            let better = grounding && p.ground_level_score < g1.x;
            let gl2 = if better {
                g1
            } else {
                p.ground_level
            };
            let gls2 = if better {
                g1.x
            } else {
                p.ground_level_score
            };
            let base: int = if vn <= radius {
                1000
            } else {
                cl(tdiv(fade * fade, FX_ONE as int))
            };
            let s1: int = base * 200;
            let s2: int = if accel > 10 {
                let sa = cl(tdiv(s1 * accel, FX_ONE as int));
                let sb = cl(tdiv(sa * seg.el, FX_ONE as int));
                if sb < cl(tdiv(300 * seg.el, FX_ONE as int)) {
                    0
                } else {
                    sb
                }
            } else if accel < -20 {
                let sa = cl(tdiv(s1 * (-accel), FX_ONE as int));
                if sa < 10 {
                    0
                } else {
                    sa
                }
            } else {
                s1
            };
            let acc2 = spec_vadd(acc, spec_vscale(unit, s2 as i64));
            (
                Player {
                    grounded: grounded2,
                    ground_level: gl2,
                    ground_level_score: gls2,
                    ..p
                },
                acc2,
            )
        } else {
            (p, acc)
        }
    }
}

/// The 3 x 3 neighborhood scan from linear index `idx` (row-major,
/// the player's own tile skipped); mirrors `handle_collisions`.
pub open spec fn spec_collide_from(
    l: crate::Level,
    xx: u16,
    yy: u16,
    myx: u16,
    myy: u16,
    idx: int,
    p: Player,
    acc: Vec2,
) -> (Player, Vec2)
    decreases 9 - idx,
{
    if idx < 0 || idx >= 9 {
        (p, acc)
    } else {
        let x = (xx + (idx % 3)) as u16;
        let y = (yy + (idx / 3)) as u16;
        if x == myx && y == myy {
            spec_collide_from(l, xx, yy, myx, myy, idx + 1, p, acc)
        } else {
            let center = spec_from_world_coords((x, y));
            let cfg = crate::tiles::spec_collision_configuration(spec_get_tile(l, x, y));
            let st = spec_repel_tile(p, center, cfg, acc);
            spec_collide_from(l, xx, yy, myx, myy, idx + 1, st.0, st.1)
        }
    }
}

/// One full collision pass; mirrors `Player::handle_collisions`.
pub open spec fn spec_handle_collisions(p: Player, l: crate::Level, acc: Vec2) -> (Player, Vec2) {
    let p0 = Player { ground_level_score: 300, ..p };
    let me = spec_to_world_coords(p.pos);
    let xx: u16 = if me.0 == 0 {
        0u16
    } else {
        (me.0 - 1) as u16
    };
    let yy: u16 = if me.1 == 0 {
        0u16
    } else {
        (me.1 - 1) as u16
    };
    spec_collide_from(l, xx, yy, me.0, me.1, 0, p0, acc)
}

/// Gravity, ground friction and drag; mirrors `Player::movement`.
pub open spec fn spec_movement(p: Player, acc: Vec2) -> (Player, Vec2) {
    let a1 = spec_vadd(acc, Vec2 { x: 0, y: 500 });
    let friction = cl(tdiv(p.vel.x * 2, FX_ONE as int));
    let a2 = if p.grounded {
        spec_vsub(a1, Vec2 { x: friction as i64, y: 0 })
    } else {
        a1
    };
    let vel2 = if p.grounded && -1 < p.vel.x < 1 {
        Vec2 { x: 0, y: p.vel.y }
    } else {
        p.vel
    };
    let a3 = spec_vsub(a2, crate::vec2::spec_vmuldiv(vel2, 1, 2000));
    (Player { vel: vel2, ..p }, a3)
}

impl Player {
    /// Apply the repulsion of one tile's nearest collision segment to
    /// the velocity accumulator, and record grounding.
    fn repel_tile(
        &mut self,
        tile_center: Vec2,
        config: &Vec<CollisionSegment>,
        acceleration: &mut Vec2,
    )
        requires
            player_wf(*old(self)),
            v_ok(tile_center),
            segs_ok(config@),
            v_ok(*old(acceleration)),
        ensures
            (*final(self), *final(acceleration)) == spec_repel_tile(
                *old(self),
                tile_center,
                config@,
                *old(acceleration),
            ),
            player_wf(*final(self)),
            v_ok(*final(acceleration)),
            final(self).pos == old(self).pos,
            final(self).vel == old(self).vel,
    {
        if config.len() == 0 {
            return ;
        }
        let ghost p = *self;

        let mut attained: i64 = i64::MAX;
        let mut chosen_vector = Vec2::new(0, 0);
        let mut chosen_vector_norm: i64 = 0;
        let mut chosen_segment: CollisionSegment = config[0];

        let n = config.len();
        let mut i: usize = 0;
        while i < n
            invariant
                player_wf(p),
                *self == p,
                v_ok(tile_center),
                segs_ok(config@),
                n == config@.len(),
                0 < n,
                0 <= i <= n,
                v_ok(chosen_vector),
                0 <= chosen_vector_norm <= FX_LIM,
                seg_ok(chosen_segment),
                spec_chosen(p.pos, tile_center, config@) == spec_choose_from(
                    p.pos,
                    tile_center,
                    config@,
                    i as int,
                    (attained as int, chosen_vector, chosen_vector_norm, chosen_segment),
                ),
            decreases n - i,
        {
            let colsegm = config[i];
            proof {
                assert(seg_ok(config@[i as int]));
            }
            let pos1 = tile_center.vadd(colsegm.rp1);
            let pos2 = tile_center.vadd(colsegm.rp2);
            let a = self.pos.vsub(pos1);
            let b = pos2.vsub(pos1);
            let t = a.proj_factor(b);
            let projected = pos1.vadd(b.vscale(t));
            let v = self.pos.vsub(projected);
            let vn = v.norm();
            if attained > vn + colsegm.rad {
                chosen_vector = v;
                chosen_vector_norm = vn;
                chosen_segment = colsegm;
                attained = vn + colsegm.rad;
            }
            i = i + 1;
        }

        let radius: i64 = 1500 + chosen_segment.rad;
        let feather: i64 = 3000;

        if chosen_vector_norm < radius + feather {
            let unit = chosen_vector.vunit();
            let accelerating = self.vel.alignment(chosen_vector);
            proof {
                crate::fx::lemma_tdiv_bound(chosen_vector_norm - radius, 3);
            }
            let fade: i64 = 1000 - tdiv64(chosen_vector_norm - radius, 3);
            if fade > 10 && unit.y < -500 {
                self.grounded = true;
                let g0 = chosen_segment.rp2.vsub(chosen_segment.rp1).vunit();
                let new_ground_level = if g0.x < 0 {
                    g0.vneg()
                } else {
                    g0
                };
                if self.ground_level_score < new_ground_level.x {
                    self.ground_level_score = new_ground_level.x;
                    self.ground_level = new_ground_level;
                }
            }

            let mut scale: i64;
            if chosen_vector_norm <= radius {
                scale = 1000;
            } else {
                proof {
                    crate::fx::lemma_spend_le(fade as int, fade as int);
                }
                scale = fxmul(fade, fade);
            }
            scale = scale * 200;
            if accelerating > 10 {
                scale = fxmul(scale, accelerating);
                scale = fxmul(scale, chosen_segment.el);
                if scale < fxmul(300, chosen_segment.el) {
                    scale = 0;
                }
            } else if accelerating < -20 {
                scale = fxmul(scale, -accelerating);
                if scale < 10 {
                    scale = 0;
                }
            }
            *acceleration = acceleration.vadd(unit.vscale(scale));
        }
    }

    /// Run the segment repulsion for every tile in the 3 x 3
    /// neighborhood of the player's tile, the center tile excluded.
    pub fn handle_collisions(&mut self, world: &World, acceleration: &mut Vec2)
        requires
            player_wf(*old(self)),
            crate::area_dims_wf(world.level.the_area),
            crate::area_meta_wf(world.level.the_area),
            v_ok(*old(acceleration)),
        ensures
            (*final(self), *final(acceleration)) == spec_handle_collisions(
                *old(self),
                world.level,
                *old(acceleration),
            ),
            player_wf(*final(self)),
            v_ok(*final(acceleration)),
            final(self).pos == old(self).pos,
            final(self).vel == old(self).vel,
    {
        self.ground_level_score = 300;
        let ghost p0 = *self;

        let me = self.my_world_coords();
        let (myx, myy) = me;
        let xx: u16 = if myx == 0 {
            0
        } else {
            myx - 1
        };
        let yy: u16 = if myy == 0 {
            0
        } else {
            myy - 1
        };

        let mut idx: u16 = 0;
        while idx < 9
            invariant
                player_wf(*self),
                v_ok(*acceleration),
                crate::area_dims_wf(world.level.the_area),
                crate::area_meta_wf(world.level.the_area),
                0 <= idx <= 9,
                myx <= 128,
                myy <= 64,
                (myx, myy) == spec_to_world_coords(p0.pos),
                xx == (if myx == 0 {
                    0u16
                } else {
                    (myx - 1) as u16
                }),
                yy == (if myy == 0 {
                    0u16
                } else {
                    (myy - 1) as u16
                }),
                self.pos == p0.pos,
                self.vel == p0.vel,
                spec_collide_from(world.level, xx, yy, myx, myy, 0, p0, *old(acceleration))
                    == spec_collide_from(
                    world.level,
                    xx,
                    yy,
                    myx,
                    myy,
                    idx as int,
                    *self,
                    *acceleration,
                ),
            decreases 9 - idx,
        {
            let x: u16 = xx + idx % 3;
            let y: u16 = yy + idx / 3;
            if !(x == myx && y == myy) {
                let tiletype = world.get_tile((x, y));
                let cfg = tiletype.collision_configuration();
                let center = World::from_world_coords((x, y));
                self.repel_tile(center, &cfg, acceleration);
            }
            idx = idx + 1;
        }
    }

    /// Gravity, friction when grounded, and a soft drag term.
    pub fn movement(&mut self, acceleration: &mut Vec2)
        requires
            player_wf(*old(self)),
            v_ok(*old(acceleration)),
        ensures
            (*final(self), *final(acceleration)) == spec_movement(*old(self), *old(acceleration)),
            player_wf(*final(self)),
            v_ok(*final(acceleration)),
    {
        *acceleration = acceleration.vadd(Vec2::new(0, 500));

        if self.grounded {
            let friction = fxmul(self.vel.x, 2);
            *acceleration = acceleration.vsub(Vec2::new(friction, 0));
            if self.vel.x > -1 && self.vel.x < 1 {
                self.vel = Vec2::new(0, self.vel.y);
            }
        }

        *acceleration = acceleration.vsub(self.vel.vmuldiv(1, 2000));
    }

    /// Tile coordinates of the player's position.
    pub fn my_world_coords(&self) -> (r: crate::TilePos)
        requires
            v_ok(self.pos),
        ensures
            r == spec_to_world_coords(self.pos),
            r.0 <= 128,
            r.1 <= 64,
    {
        World::to_world_coords(self.pos)
    }
}

/// Power conservation: regeneration never drops the power, never
/// leaves `[0, POWER_CEIL]`, and closes at least five percent of the
/// gap to the ceiling (up to rounding).
pub proof fn lemma_power_regen_bounds(p: int)
    requires
        0 <= p <= POWER_CEIL,
    ensures
        p <= spec_power_regen(p) <= POWER_CEIL,
        100 * (POWER_CEIL - spec_power_regen(p)) <= 95 * (POWER_CEIL - p) + 99,
{
    let q = (95 * p) / 100;
    vstd::arithmetic::div_mod::lemma_fundamental_div_mod(95 * p, 100);
    let r = (95 * p) % 100;
    assert(95 * p == 100 * q + r);
    // 100 * (p - q) == 5 * p + r <= 1_500_099, so p - q <= 15_000.
    assert(100 * (p - q) == 5 * p + r);
}

/// Power conservation through a control step: power stays within its
/// bounds, and with no input held, no aim released and no jump
/// buffered, the step is exactly the regeneration recurrence.
pub proof fn lemma_power_conservation(p: Player, prev: u8, cur: u8)
    requires
        player_wf(p),
    ensures
        0 <= spec_control(p, prev, cur).power <= POWER_CEIL,
        (cur == 0 && prev & BUTTON_2 == 0 && p.remembered_jump == 0) ==> spec_control(
            p,
            prev,
            cur,
        ).power == spec_power_regen(p.power as int),
        (cur == 0 && prev & BUTTON_2 == 0 && p.remembered_jump == 0) ==> p.power <= spec_control(
            p,
            prev,
            cur,
        ).power,
{
    // Whatever was spent came out of the power held.
    crate::fx::lemma_tdiv_bound(p.power as int, 5);
    crate::fx::lemma_tdiv_bound(p.power as int, 20);
    crate::fx::lemma_tdiv_bound(p.power as int, 200);
    crate::fx::lemma_spend_le(p.power as int, spec_jump_strength(cur) as int);
    // Regeneration keeps any remainder within the resource bounds.
    assert forall|x: int| 0 <= x <= POWER_CEIL implies 0 <= #[trigger] tdiv(95 * x, 100) + 15_000
        <= POWER_CEIL && x <= tdiv(95 * x, 100) + 15_000 by {
        lemma_power_regen_bounds(x);
    }
    if cur == 0 && prev & BUTTON_2 == 0 && p.remembered_jump == 0 {
        let cz = cur;
        assert(cz == 0 ==> cz & 2 == 0 && cz & 16 == 0 && cz & 32 == 0 && cz & 64 == 0 && cz
            & 128 == 0) by (bit_vector);
        assert(spec_norm(Vec2 { x: 0, y: 0 }) == 0) by {
            assert((1 as nat) * (1 as nat) == 1) by (nonlinear_arith);
            crate::fx::lemma_isqrt_unique(0, 0);
        }
        lemma_power_regen_bounds(p.power as int);
    }
}

/// The effective surface key of segment `i`: candidate distance plus
/// the segment's padding radius.
pub open spec fn seg_key(ppos: Vec2, center: Vec2, cfg: Seq<CollisionSegment>, i: int) -> int {
    spec_seg_candidate(ppos, center, cfg[i]).1 + cfg[i].rad
}

proof fn lemma_choose_from_min(
    ppos: Vec2,
    center: Vec2,
    cfg: Seq<CollisionSegment>,
    i: int,
    j: int,
)
    requires
        segs_ok(cfg),
        0 <= j < i <= cfg.len(),
        forall|t: int| 0 <= t < j ==> #[trigger] seg_key(ppos, center, cfg, t) > seg_key(
            ppos,
            center,
            cfg,
            j,
        ),
        forall|t: int| 0 <= t < i ==> #[trigger] seg_key(ppos, center, cfg, t) >= seg_key(
            ppos,
            center,
            cfg,
            j,
        ),
    ensures
        ({
            let r = spec_choose_from(
                ppos,
                center,
                cfg,
                i,
                (
                    seg_key(ppos, center, cfg, j),
                    spec_seg_candidate(ppos, center, cfg[j]).0,
                    spec_seg_candidate(ppos, center, cfg[j]).1,
                    cfg[j],
                ),
            );
            exists|j2: int|
                {
                    &&& 0 <= j2 < cfg.len()
                    &&& r == (
                        seg_key(ppos, center, cfg, j2),
                        spec_seg_candidate(ppos, center, cfg[j2]).0,
                        spec_seg_candidate(ppos, center, cfg[j2]).1,
                        cfg[j2],
                    )
                    &&& (forall|t: int|
                        0 <= t < j2 ==> #[trigger] seg_key(ppos, center, cfg, t) > seg_key(
                            ppos,
                            center,
                            cfg,
                            j2,
                        ))
                    &&& (forall|t: int|
                        0 <= t < cfg.len() ==> #[trigger] seg_key(ppos, center, cfg, t) >= seg_key(
                            ppos,
                            center,
                            cfg,
                            j2,
                        ))
                }
        }),
    decreases cfg.len() - i,
{
    let accj = (
        seg_key(ppos, center, cfg, j),
        spec_seg_candidate(ppos, center, cfg[j]).0,
        spec_seg_candidate(ppos, center, cfg[j]).1,
        cfg[j],
    );
    if i == cfg.len() {
        assert(spec_choose_from(ppos, center, cfg, i, accj) == accj);
    } else {
        let key_i = seg_key(ppos, center, cfg, i);
        let key_j = seg_key(ppos, center, cfg, j);
        if key_j > key_i {
            assert(forall|t: int|
                0 <= t < i ==> #[trigger] seg_key(ppos, center, cfg, t) > seg_key(
                    ppos,
                    center,
                    cfg,
                    i,
                ));
            lemma_choose_from_min(ppos, center, cfg, i + 1, i);
        } else {
            lemma_choose_from_min(ppos, center, cfg, i + 1, j);
        }
    }
}

/// Nearest-choice determinism: for a non-empty segment list the
/// chosen segment is a pure function of the player position, namely
/// the first segment in list order whose candidate distance plus
/// radius is minimal; ties go to the earlier segment.
pub proof fn lemma_nearest_choice_deterministic(
    ppos: Vec2,
    center: Vec2,
    cfg: Seq<CollisionSegment>,
)
    requires
        segs_ok(cfg),
        0 < cfg.len(),
    ensures
        ({
            let c = spec_chosen(ppos, center, cfg);
            exists|j: int|
                {
                    &&& 0 <= j < cfg.len()
                    &&& c == (
                        seg_key(ppos, center, cfg, j),
                        spec_seg_candidate(ppos, center, cfg[j]).0,
                        spec_seg_candidate(ppos, center, cfg[j]).1,
                        cfg[j],
                    )
                    &&& (forall|t: int|
                        0 <= t < j ==> #[trigger] seg_key(ppos, center, cfg, t) > seg_key(
                            ppos,
                            center,
                            cfg,
                            j,
                        ))
                    &&& (forall|t: int|
                        0 <= t < cfg.len() ==> #[trigger] seg_key(ppos, center, cfg, t) >= seg_key(
                            ppos,
                            center,
                            cfg,
                            j,
                        ))
                }
        }),
{
    let cand0 = spec_seg_candidate(ppos, center, cfg[0]);
    assert(seg_ok(cfg[0]));
    assert(0 <= cand0.1 <= FX_LIM && v_ok(cand0.0));
    assert(seg_key(ppos, center, cfg, 0) < i64::MAX as int);
    assert(spec_chosen(ppos, center, cfg) == spec_choose_from(
        ppos,
        center,
        cfg,
        1,
        (seg_key(ppos, center, cfg, 0), cand0.0, cand0.1, cfg[0]),
    ));
    lemma_choose_from_min(ppos, center, cfg, 1, 0);
}

/// The player stands over the top face of a solid tile at `center`,
/// within the feather band of its top collision segment.
pub open spec fn above_solid_face(ppos: Vec2, center: Vec2) -> bool {
    &&& 0 <= center.x <= 2_000_000
    &&& 0 <= center.y <= 2_000_000
    &&& -2_000_000 <= ppos.x <= 2_000_000
    &&& -2_000_000 <= ppos.y <= 2_000_000
    &&& center.x - 3000 <= ppos.x <= center.x + 3000
    &&& -5400 <= ppos.y - (center.y - 3000) <= -100
}

proof fn lemma_mul_div_cancel_36(x: int)
    requires
        0 <= x,
    ensures
        (6_000_000 * x) / 36_000_000 == x / 6,
{
    vstd::arithmetic::div_mod::lemma_div_denominator(6_000_000 * x, 6_000_000, 6);
    vstd::arithmetic::div_mod::lemma_div_multiples_vanish(x, 6_000_000);
}

/// The repulsion of a solid tile grounds a player who hovers over its
/// top face within the feather band, whatever the rest of the state.
#[verifier::rlimit(100)]
pub proof fn lemma_repel_solid_grounds(p: Player, center: Vec2, acc: Vec2)
    requires
        above_solid_face(p.pos, center),
    ensures
        spec_repel_tile(p, center, crate::tiles::spec_square_segments(), acc).0.grounded,
{
    let cfg = crate::tiles::spec_square_segments();
    let ax = p.pos.x - (center.x - 3000);
    let dy = p.pos.y - (center.y - 3000);
    let m = -dy;
    assert(0 <= ax <= 6000);
    assert(100 <= m <= 5400);
    assert(dy * dy == m * m && m * m <= 5400 * 5400) by (nonlinear_arith)
        requires
            dy == -m,
            100 <= m <= 5400,
    ;

    // Top segment: projection hits the face, the separation is almost
    // vertical, and its length is exactly the vertical gap.
    let cand0 = spec_seg_candidate(p.pos, center, cfg[0]);
    let t0 = ax / 6;
    let rx = ax - 6 * t0;
    let pos1 = spec_vadd(center, cfg[0].rp1);
    let pos2 = spec_vadd(center, cfg[0].rp2);
    assert(pos1 == Vec2 { x: (center.x - 3000) as i64, y: (center.y - 3000) as i64 });
    assert(pos2 == Vec2 { x: (center.x + 3000) as i64, y: (center.y - 3000) as i64 });
    let av = spec_vsub(p.pos, pos1);
    let bv = spec_vsub(pos2, pos1);
    assert(av == Vec2 { x: ax as i64, y: dy as i64 });
    assert(bv == Vec2 { x: 6000i64, y: 0i64 });
    let tf = crate::vec2::spec_proj_factor(av, bv);
    assert(tf == t0) by {
        assert(bv.x * bv.x + bv.y * bv.y == 36_000_000) by (nonlinear_arith)
            requires
                bv.x == 6000,
                bv.y == 0,
        ;
        assert(crate::vec2::spec_dot(av, bv) == 6000 * ax) by (nonlinear_arith)
            requires
                av.x == ax,
                bv.x == 6000,
                bv.y == 0,
        ;
        assert((6000 * ax) * 1000 == 6_000_000 * ax) by (nonlinear_arith);
        lemma_mul_div_cancel_36(ax);
        vstd::arithmetic::div_mod::lemma_div_is_ordered(ax, 6000, 6);
        assert(6000int / 6 == 1000);
        vstd::arithmetic::div_mod::lemma_div_pos_is_pos(ax, 6);
    };
    let proj = spec_vadd(pos1, spec_vscale(bv, tf));
    assert(proj == Vec2 { x: (center.x - 3000 + 6 * t0) as i64, y: (center.y - 3000) as i64 })
        by {
        assert(bv.x * tf == 6000 * t0 && bv.y * tf == 0) by (nonlinear_arith)
            requires
                bv.x == 6000,
                bv.y == 0,
                tf == t0,
        ;
        vstd::arithmetic::div_mod::lemma_div_multiples_vanish(6 * t0, 1000);
        assert(6000 * t0 == 1000 * (6 * t0)) by (nonlinear_arith);
        vstd::arithmetic::div_mod::lemma_div_pos_is_pos(ax, 6);
        vstd::arithmetic::div_mod::lemma_div_is_ordered(ax, 6000, 6);
        assert(6000int / 6 == 1000);
        assert(tdiv(0, 1000) == 0);
    };
    vstd::arithmetic::div_mod::lemma_fundamental_div_mod(ax, 6);
    assert(0 <= rx < 6);
    let v0 = spec_vsub(p.pos, proj);
    assert(v0 == Vec2 { x: rx as i64, y: dy as i64 });
    assert(spec_norm(v0) == m) by {
        assert(rx * rx <= 25 && (m + 1) * (m + 1) == m * m + 2 * m + 1) by (nonlinear_arith)
            requires
                0 <= rx < 6,
        ;
        assert(v0.x * v0.x == rx * rx && v0.y * v0.y == m * m) by (nonlinear_arith)
            requires
                v0.x == rx,
                v0.y == dy,
                dy == -m,
        ;
        crate::fx::lemma_isqrt_unique((v0.x * v0.x + v0.y * v0.y) as nat, m as nat);
    };
    assert(cand0 == (Vec2 { x: rx as i64, y: dy as i64 }, m as i64));
    let key0 = seg_key(p.pos, center, cfg, 0);
    assert(key0 == m + 1000);

    // The other three segments are at least as far away.
    assert(seg_key(p.pos, center, cfg, 1) >= key0) by {
        // The right segment projects onto the top-right corner.
        let q1 = spec_vadd(center, cfg[1].rp1);
        let q2 = spec_vadd(center, cfg[1].rp2);
        assert(q1 == Vec2 { x: (center.x + 3000) as i64, y: (center.y - 3000) as i64 });
        assert(q2 == Vec2 { x: (center.x + 3000) as i64, y: (center.y + 3000) as i64 });
        let av1 = spec_vsub(p.pos, q1);
        let bv1 = spec_vsub(q2, q1);
        assert(av1 == Vec2 { x: (ax - 6000) as i64, y: dy as i64 });
        assert(bv1 == Vec2 { x: 0i64, y: 6000i64 });
        let tf1 = crate::vec2::spec_proj_factor(av1, bv1);
        assert(tf1 == 0) by {
            assert(bv1.x * bv1.x + bv1.y * bv1.y == 36_000_000) by (nonlinear_arith)
                requires
                    bv1.x == 0,
                    bv1.y == 6000,
            ;
            assert(crate::vec2::spec_dot(av1, bv1) == -(6000 * m)) by (nonlinear_arith)
                requires
                    av1.y == dy,
                    bv1.x == 0,
                    bv1.y == 6000,
                    dy == -m,
            ;
            assert((-(6000 * m)) * 1000 == -(6_000_000 * m)) by (nonlinear_arith);
            assert(tdiv(-(6_000_000 * m), 36_000_000) < 0) by {
                lemma_mul_div_cancel_36(m);
                vstd::arithmetic::div_mod::lemma_div_non_zero(m, 6);
            };
        };
        let proj1 = spec_vadd(q1, spec_vscale(bv1, 0));
        assert(proj1 == q1) by {
            assert(bv1.x * 0 == 0 && bv1.y * 0 == 0) by (nonlinear_arith);
            assert(tdiv(0, 1000) == 0);
        };
        let v1 = spec_vsub(p.pos, proj1);
        assert(v1 == Vec2 { x: (ax - 6000) as i64, y: dy as i64 });
        assert(m * m <= v1.x * v1.x + v1.y * v1.y <= 100_000_000_000_000) by (nonlinear_arith)
            requires
                v1.x == ax - 6000,
                -6000 <= ax - 6000 <= 0,
                v1.y == dy,
                dy == -m,
                100 <= m <= 5400,
        ;
        crate::fx::lemma_isqrt_square(m as nat);
        crate::fx::lemma_isqrt_square(10_000_000);
        crate::fx::lemma_isqrt_monotone(((m * m) as nat), ((v1.x * v1.x + v1.y * v1.y) as nat));
        crate::fx::lemma_isqrt_monotone(
            ((v1.x * v1.x + v1.y * v1.y) as nat),
            ((10_000_000 * 10_000_000) as nat),
        );
    };
    assert(seg_key(p.pos, center, cfg, 2) >= key0) by {
        // Projection onto the bottom face; the separation is at least
        // the tile height plus the gap.
        let u = 6000 - ax;
        let t2 = u / 6;
        let q1 = spec_vadd(center, cfg[2].rp1);
        let q2 = spec_vadd(center, cfg[2].rp2);
        assert(q1 == Vec2 { x: (center.x + 3000) as i64, y: (center.y + 3000) as i64 });
        assert(q2 == Vec2 { x: (center.x - 3000) as i64, y: (center.y + 3000) as i64 });
        let av2 = spec_vsub(p.pos, q1);
        let bv2 = spec_vsub(q2, q1);
        assert(av2 == Vec2 { x: (ax - 6000) as i64, y: (dy - 6000) as i64 });
        assert(bv2 == Vec2 { x: -6000i64, y: 0i64 });
        let tf2 = crate::vec2::spec_proj_factor(av2, bv2);
        assert(tf2 == t2) by {
            assert(bv2.x * bv2.x + bv2.y * bv2.y == 36_000_000) by (nonlinear_arith)
                requires
                    bv2.x == -6000,
                    bv2.y == 0,
            ;
            assert(crate::vec2::spec_dot(av2, bv2) == 6000 * u) by (nonlinear_arith)
                requires
                    av2.x == ax - 6000,
                    av2.y == dy - 6000,
                    bv2.x == -6000,
                    bv2.y == 0,
                    u == 6000 - ax,
            ;
            assert((6000 * u) * 1000 == 6_000_000 * u) by (nonlinear_arith);
            lemma_mul_div_cancel_36(u);
            vstd::arithmetic::div_mod::lemma_div_is_ordered(u, 6000, 6);
            assert(6000int / 6 == 1000);
            vstd::arithmetic::div_mod::lemma_div_pos_is_pos(u, 6);
        };
        let proj2 = spec_vadd(q1, spec_vscale(bv2, tf2));
        assert(proj2 == Vec2 {
            x: (center.x + 3000 - 6 * t2) as i64,
            y: (center.y + 3000) as i64,
        }) by {
            assert(bv2.x * tf2 == -6000 * t2 && bv2.y * tf2 == 0) by (nonlinear_arith)
                requires
                    bv2.x == -6000,
                    bv2.y == 0,
                    tf2 == t2,
            ;
            assert(-6000 * t2 == -(1000 * (6 * t2))) by (nonlinear_arith);
            assert(tdiv(-6000 * t2, 1000) == -(6 * t2)) by {
                vstd::arithmetic::div_mod::lemma_div_multiples_vanish(6 * t2, 1000);
                vstd::arithmetic::div_mod::lemma_div_pos_is_pos(u, 6);
            };
            vstd::arithmetic::div_mod::lemma_div_is_ordered(u, 6000, 6);
            assert(6000int / 6 == 1000);
            vstd::arithmetic::div_mod::lemma_div_pos_is_pos(u, 6);
            assert(tdiv(0, 1000) == 0);
        };
        vstd::arithmetic::div_mod::lemma_fundamental_div_mod(u, 6);
        let wx = u - 6 * t2;
        assert(0 <= wx < 6);
        let v2 = spec_vsub(p.pos, proj2);
        assert(v2 == Vec2 { x: (-wx) as i64, y: (dy - 6000) as i64 });
        let wy = dy - 6000;
        assert((6000 + m) * (6000 + m) <= v2.x * v2.x + v2.y * v2.y <= 100_000_000_000_000)
            by (nonlinear_arith)
            requires
                v2.x == -wx,
                0 <= wx < 6,
                v2.y == wy,
                wy == -(6000 + m),
                100 <= m <= 5400,
        ;
        crate::fx::lemma_isqrt_square((6000 + m) as nat);
        crate::fx::lemma_isqrt_square(10_000_000);
        crate::fx::lemma_isqrt_monotone(
            (((6000 + m) * (6000 + m)) as nat),
            ((v2.x * v2.x + v2.y * v2.y) as nat),
        );
        crate::fx::lemma_isqrt_monotone(
            ((v2.x * v2.x + v2.y * v2.y) as nat),
            ((10_000_000 * 10_000_000) as nat),
        );
    };
    assert(seg_key(p.pos, center, cfg, 3) >= key0) by {
        // The left segment projects onto the top-left corner.
        let den = 6000 + m;
        let q1 = spec_vadd(center, cfg[3].rp1);
        let q2 = spec_vadd(center, cfg[3].rp2);
        assert(q1 == Vec2 { x: (center.x - 3000) as i64, y: (center.y + 3000) as i64 });
        assert(q2 == Vec2 { x: (center.x - 3000) as i64, y: (center.y - 3000) as i64 });
        let av3 = spec_vsub(p.pos, q1);
        let bv3 = spec_vsub(q2, q1);
        assert(av3 == Vec2 { x: ax as i64, y: (dy - 6000) as i64 });
        assert(bv3 == Vec2 { x: 0i64, y: -6000i64 });
        let tf3 = crate::vec2::spec_proj_factor(av3, bv3);
        assert(tf3 == 1000) by {
            assert(bv3.x * bv3.x + bv3.y * bv3.y == 36_000_000) by (nonlinear_arith)
                requires
                    bv3.x == 0,
                    bv3.y == -6000,
            ;
            assert(crate::vec2::spec_dot(av3, bv3) == 6000 * den) by (nonlinear_arith)
                requires
                    av3.x == ax,
                    av3.y == dy - 6000,
                    bv3.x == 0,
                    bv3.y == -6000,
                    den == 6000 + m,
                    dy == -m,
            ;
            assert((6000 * den) * 1000 == 6_000_000 * den) by (nonlinear_arith);
            lemma_mul_div_cancel_36(den);
            vstd::arithmetic::div_mod::lemma_div_is_ordered(6100, den, 6);
            assert(6100int / 6 == 1016);
        };
        let proj3 = spec_vadd(q1, spec_vscale(bv3, 1000));
        assert(proj3 == Vec2 { x: (center.x - 3000) as i64, y: (center.y - 3000) as i64 }) by {
            assert(bv3.x * 1000 == 0 && bv3.y * 1000 == -6_000_000) by (nonlinear_arith)
                requires
                    bv3.x == 0,
                    bv3.y == -6000,
            ;
            assert(tdiv(0, 1000) == 0);
            assert(tdiv(-6_000_000, 1000) == -6000) by {
                vstd::arithmetic::div_mod::lemma_div_multiples_vanish(6000, 1000);
            };
        };
        let v3 = spec_vsub(p.pos, proj3);
        assert(v3 == Vec2 { x: ax as i64, y: dy as i64 });
        assert(m * m <= v3.x * v3.x + v3.y * v3.y <= 100_000_000_000_000) by (nonlinear_arith)
            requires
                v3.x == ax,
                0 <= ax <= 6000,
                v3.y == dy,
                dy == -m,
                100 <= m <= 5400,
        ;
        crate::fx::lemma_isqrt_square(m as nat);
        crate::fx::lemma_isqrt_square(10_000_000);
        crate::fx::lemma_isqrt_monotone(((m * m) as nat), ((v3.x * v3.x + v3.y * v3.y) as nat));
        crate::fx::lemma_isqrt_monotone(
            ((v3.x * v3.x + v3.y * v3.y) as nat),
            ((10_000_000 * 10_000_000) as nat),
        );
    };

    // The top segment is therefore the chosen one.
    lemma_nearest_choice_deterministic(p.pos, center, cfg);
    let j = choose|j: int|
        {
            &&& 0 <= j < cfg.len()
            &&& spec_chosen(p.pos, center, cfg) == (
                seg_key(p.pos, center, cfg, j),
                spec_seg_candidate(p.pos, center, cfg[j]).0,
                spec_seg_candidate(p.pos, center, cfg[j]).1,
                cfg[j],
            )
            &&& (forall|t: int|
                0 <= t < j ==> #[trigger] seg_key(p.pos, center, cfg, t) > seg_key(
                    p.pos,
                    center,
                    cfg,
                    j,
                ))
            &&& (forall|t: int|
                0 <= t < cfg.len() ==> #[trigger] seg_key(p.pos, center, cfg, t) >= seg_key(
                    p.pos,
                    center,
                    cfg,
                    j,
                ))
        };
    assert(seg_key(p.pos, center, cfg, j) == key0);
    assert(j == 0);
    let chosen = spec_chosen(p.pos, center, cfg);
    assert(chosen.1 == Vec2 { x: rx as i64, y: dy as i64 } && chosen.2 == m as i64
        && chosen.3 == cfg[0]);

    // Within the feather band, the fade is high and the separation
    // points straight up, so the grounding rule fires.
    assert(m < 2500 + 3000);
    assert(spec_vunit(chosen.1).y == -1000) by {
        vstd::arithmetic::div_mod::lemma_div_multiples_vanish(1000, m);
        assert(dy * 1000 == -(m * 1000));
    };
    assert(1000 - tdiv(m - 2500, 3) > 10) by {
        if m - 2500 >= 0 {
            vstd::arithmetic::div_mod::lemma_div_is_ordered(m - 2500, 2900, 3);
            assert(2900int / 3 == 966);
        }
    };
}

proof fn lemma_repel_keeps_grounded(p: Player, center: Vec2, cfg: Seq<CollisionSegment>, acc: Vec2)
    requires
        p.grounded,
    ensures
        spec_repel_tile(p, center, cfg, acc).0.grounded,
        spec_repel_tile(p, center, cfg, acc).0.pos == p.pos,
{
}

proof fn lemma_repel_keeps_pos(p: Player, center: Vec2, cfg: Seq<CollisionSegment>, acc: Vec2)
    ensures
        spec_repel_tile(p, center, cfg, acc).0.pos == p.pos,
{
}

proof fn lemma_collide_keeps_grounded(
    l: crate::Level,
    xx: u16,
    yy: u16,
    myx: u16,
    myy: u16,
    idx: int,
    p: Player,
    acc: Vec2,
)
    requires
        p.grounded,
    ensures
        spec_collide_from(l, xx, yy, myx, myy, idx, p, acc).0.grounded,
    decreases 9 - idx,
{
    if 0 <= idx < 9 {
        let x = (xx + (idx % 3)) as u16;
        let y = (yy + (idx / 3)) as u16;
        if !(x == myx && y == myy) {
            let center = spec_from_world_coords((x, y));
            let cfg = crate::tiles::spec_collision_configuration(spec_get_tile(l, x, y));
            lemma_repel_keeps_grounded(p, center, cfg, acc);
            let st = spec_repel_tile(p, center, cfg, acc);
            lemma_collide_keeps_grounded(l, xx, yy, myx, myy, idx + 1, st.0, st.1);
        } else {
            lemma_collide_keeps_grounded(l, xx, yy, myx, myy, idx + 1, p, acc);
        }
    }
}

proof fn lemma_collide_from_grounds(
    l: crate::Level,
    xx: u16,
    yy: u16,
    myx: u16,
    myy: u16,
    idx: int,
    tidx: int,
    p: Player,
    acc: Vec2,
)
    requires
        0 <= idx <= tidx < 9,
        ({
            let x = (xx + (tidx % 3)) as u16;
            let y = (yy + (tidx / 3)) as u16;
            &&& !(x == myx && y == myy)
            &&& spec_get_tile(l, x, y) == crate::tiles::TileTypeEnum::UsualArea1Tile(
                crate::tiles::UsualArea1Tile,
            )
            &&& above_solid_face(p.pos, spec_from_world_coords((x, y)))
        }),
    ensures
        spec_collide_from(l, xx, yy, myx, myy, idx, p, acc).0.grounded,
    decreases 9 - idx,
{
    let x = (xx + (idx % 3)) as u16;
    let y = (yy + (idx / 3)) as u16;
    if idx == tidx {
        let center = spec_from_world_coords((x, y));
        let cfg = crate::tiles::spec_collision_configuration(spec_get_tile(l, x, y));
        lemma_repel_solid_grounds(p, center, acc);
        let st = spec_repel_tile(p, center, cfg, acc);
        lemma_collide_keeps_grounded(l, xx, yy, myx, myy, idx + 1, st.0, st.1);
    } else {
        if !(x == myx && y == myy) {
            let center = spec_from_world_coords((x, y));
            let cfg = crate::tiles::spec_collision_configuration(spec_get_tile(l, x, y));
            lemma_repel_keeps_pos(p, center, cfg, acc);
            let st = spec_repel_tile(p, center, cfg, acc);
            lemma_collide_from_grounds(l, xx, yy, myx, myy, idx + 1, tidx, st.0, st.1);
        } else {
            lemma_collide_from_grounds(l, xx, yy, myx, myy, idx + 1, tidx, p, acc);
        }
    }
}

/// Grounding invariant: when the tile directly beneath the player is
/// solid and the player hovers over its top face within the feather
/// band, a collision pass always ends with `grounded` set.
pub proof fn lemma_grounding_invariant(p: Player, l: crate::Level, acc: Vec2)
    requires
        ({
            let me = spec_to_world_coords(p.pos);
            let below = ((me.0) as u16, (me.1 + 1) as u16);
            &&& me.1 < 63
            &&& spec_get_tile(l, below.0, below.1) == crate::tiles::TileTypeEnum::UsualArea1Tile(
                crate::tiles::UsualArea1Tile,
            )
            &&& above_solid_face(p.pos, spec_from_world_coords(below))
        }),
    ensures
        spec_handle_collisions(p, l, acc).0.grounded,
{
    let me = spec_to_world_coords(p.pos);
    let (myx, myy) = me;
    let xx: u16 = if myx == 0 {
        0u16
    } else {
        (myx - 1) as u16
    };
    let yy: u16 = if myy == 0 {
        0u16
    } else {
        (myy - 1) as u16
    };
    let dx = myx - xx;
    let dy = myy + 1 - yy;
    let tidx = dy * 3 + dx;
    assert(0 <= tidx < 9);
    assert((xx + (tidx as int % 3)) as u16 == myx && (yy + (tidx as int / 3)) as u16 == myy + 1);
    let p0 = Player { ground_level_score: 300, ..p };
    lemma_collide_from_grounds(l, xx, yy, myx, myy, 0, tidx as int, p0, acc);
}

/// The initial player state.
pub open spec fn spec_player_new() -> Player {
    Player {
        pos: Vec2 { x: 0, y: 0 },
        vel: Vec2 { x: 0, y: 0 },
        power: 50_000,
        anim_timer: 0,
        grounded: false,
        jump_dir: None,
        remembered_jump: 0,
        ground_level: Vec2 { x: 1000, y: 0 },
        ground_level_score: 300,
        placed: false,
    }
}

} // verus!
