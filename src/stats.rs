use crate::timing::{elapsed_micros, elapsed_millis, instant_now};
use std::time::Instant;
use vstd::prelude::*;
use vstd::string::StringExecFns;

verus! {

pub open spec fn digit_char(d: nat) -> char {
    if d == 0 {
        '0'
    } else if d == 1 {
        '1'
    } else if d == 2 {
        '2'
    } else if d == 3 {
        '3'
    } else if d == 4 {
        '4'
    } else if d == 5 {
        '5'
    } else if d == 6 {
        '6'
    } else if d == 7 {
        '7'
    } else if d == 8 {
        '8'
    } else {
        '9'
    }
}

/// The decimal digits of a number, most significant first, without sign or padding.
pub open spec fn decimal(n: nat) -> Seq<char>
    decreases n,
{
    if n < 10 {
        seq![digit_char(n)]
    } else {
        decimal(n / 10).push(digit_char(n % 10))
    }
}

/// The one-character text of a decimal digit.
fn digit_text(d: u128) -> (r: &'static str)
    requires
        d < 10,
    ensures
        r@ == seq![digit_char(d as nat)],
{
    match d {
        0 => {
            proof {
                reveal_strlit("0");
            }
            "0"
        },
        1 => {
            proof {
                reveal_strlit("1");
            }
            "1"
        },
        2 => {
            proof {
                reveal_strlit("2");
            }
            "2"
        },
        3 => {
            proof {
                reveal_strlit("3");
            }
            "3"
        },
        4 => {
            proof {
                reveal_strlit("4");
            }
            "4"
        },
        5 => {
            proof {
                reveal_strlit("5");
            }
            "5"
        },
        6 => {
            proof {
                reveal_strlit("6");
            }
            "6"
        },
        7 => {
            proof {
                reveal_strlit("7");
            }
            "7"
        },
        8 => {
            proof {
                reveal_strlit("8");
            }
            "8"
        },
        _ => {
            proof {
                reveal_strlit("9");
            }
            "9"
        },
    }
}

/// Appends the decimal digits of `n` to `s`.
fn push_decimal(s: &mut String, n: u128)
    ensures
        final(s)@ == old(s)@ + decimal(n as nat),
    decreases n,
{
    if n >= 10 {
        push_decimal(s, n / 10);
    }
    s.append(digit_text(n % 10));
    proof {
        if n < 10 {
            assert(decimal(n as nat) == seq![digit_char(n as nat)]);
        }
        assert(s@ =~= old(s)@ + decimal(n as nat));
    }
}

/// The decimal digits of a number.
fn decimal_text(n: u128) -> (r: String)
    ensures
        r@ == decimal(n as nat),
{
    let mut s = String::new();
    push_decimal(&mut s, n);
    assert(s@ =~= decimal(n as nat));
    s
}

/// Rolling statistics of the draw requests: frames per second, the time of
/// the last request and of its draw call recording (in microseconds), and
/// the sizes of the last draw pool and of the vertex list.
pub struct RenderStats {
    turned_off: bool,
    frames_per_sec: u32,
    last_draw_request_time: u128,
    last_draw_pool_creation_time: u128,
    last_draw_pool_elements: usize,
    last_draw_pool_vertices: usize,
    frame_counter: u32,
    fps_instant: Instant,
    draw_request_instant: Instant,
    pool_creation_instant: Instant,
}

/// The values of the statistics.
pub struct StatsView {
    pub turned_off: bool,
    pub frames_per_sec: u32,
    pub request_time: u128,
    pub pool_creation_time: u128,
    pub pool_elements: usize,
    pub pool_vertices: usize,
    pub frame_counter: u32,
}

impl View for RenderStats {
    type V = StatsView;

    closed spec fn view(&self) -> StatsView {
        StatsView {
            turned_off: self.turned_off,
            frames_per_sec: self.frames_per_sec,
            request_time: self.last_draw_request_time,
            pool_creation_time: self.last_draw_pool_creation_time,
            pool_elements: self.last_draw_pool_elements,
            pool_vertices: self.last_draw_pool_vertices,
            frame_counter: self.frame_counter,
        }
    }
}

/// The statistics after one more frame, given the milliseconds since the
/// current second started: once a second has passed the frame count becomes
/// the frames per second and counting restarts; the pool sizes are taken
/// over. Turned off, nothing changes.
pub open spec fn after_frame(s: StatsView, elapsed_ms: u128, pool_len: usize, vertex_count: usize) -> StatsView {
    if s.turned_off {
        s
    } else {
        StatsView {
            frames_per_sec: if elapsed_ms >= 1000 {
                s.frame_counter
            } else {
                s.frames_per_sec
            },
            frame_counter: if elapsed_ms >= 1000 {
                0
            } else if s.frame_counter == u32::MAX {
                u32::MAX
            } else {
                (s.frame_counter + 1) as u32
            },
            pool_elements: pool_len,
            pool_vertices: vertex_count,
            ..s
        }
    }
}

impl RenderStats {
    pub fn new() -> (r: Self)
        ensures
            r@ == (StatsView {
                turned_off: false,
                frames_per_sec: 0,
                request_time: 0,
                pool_creation_time: 0,
                pool_elements: 0,
                pool_vertices: 0,
                frame_counter: 0,
            }),
    {
        RenderStats {
            turned_off: false,
            frames_per_sec: 0,
            last_draw_request_time: 0,
            last_draw_pool_creation_time: 0,
            last_draw_pool_elements: 0,
            last_draw_pool_vertices: 0,
            frame_counter: 0,
            fps_instant: instant_now(),
            draw_request_instant: instant_now(),
            pool_creation_instant: instant_now(),
        }
    }

    /// Starts timing a draw request.
    pub fn start_draw_request_timer(&mut self)
        ensures
            final(self)@ == old(self)@,
    {
        if self.turned_off {
            return;
        }
        self.draw_request_instant = instant_now();
    }

    /// Records the time since the draw request started.
    pub fn stop_draw_request_timer(&mut self)
        ensures
            old(self)@.turned_off ==> final(self)@ == old(self)@,
            !old(self)@.turned_off ==> final(self)@ == (StatsView {
                request_time: final(self)@.request_time,
                ..old(self)@
            }),
    {
        if self.turned_off {
            return;
        }
        self.last_draw_request_time = elapsed_micros(&self.draw_request_instant);
    }

    /// Starts timing the recording of the draw calls.
    pub fn start_pool_creation_timer(&mut self)
        ensures
            final(self)@ == old(self)@,
    {
        if self.turned_off {
            return;
        }
        self.pool_creation_instant = instant_now();
    }

    /// Records the time since the recording of the draw calls started.
    pub fn stop_pool_creation_timer(&mut self)
        ensures
            old(self)@.turned_off ==> final(self)@ == old(self)@,
            !old(self)@.turned_off ==> final(self)@ == (StatsView {
                pool_creation_time: final(self)@.pool_creation_time,
                ..old(self)@
            }),
    {
        if self.turned_off {
            return;
        }
        self.last_draw_pool_creation_time = elapsed_micros(&self.pool_creation_instant);
    }

    /// Takes one finished frame into the statistics, given the milliseconds
    /// since the current second started. Tells whether a new second started.
    pub fn record_frame(&mut self, elapsed_ms: u128, pool_len: usize, vertex_count: usize) -> (rolled: bool)
        ensures
            final(self)@ == after_frame(old(self)@, elapsed_ms, pool_len, vertex_count),
            rolled == (!old(self)@.turned_off && elapsed_ms >= 1000),
    {
        if self.turned_off {
            return false;
        }
        let rolled = elapsed_ms >= 1000;
        if rolled {
            self.frames_per_sec = self.frame_counter;
            self.frame_counter = 0;
        } else {
            self.frame_counter = self.frame_counter.saturating_add(1);
        }
        if self.last_draw_pool_elements != pool_len {
            self.last_draw_pool_elements = pool_len;
        }
        if self.last_draw_pool_vertices != vertex_count {
            self.last_draw_pool_vertices = vertex_count;
        }
        rolled
    }

    /// Takes one finished frame into the statistics against the clock.
    pub fn update(&mut self, pool_len: usize, vertex_count: usize)
        ensures
            exists|elapsed_ms: u128| final(self)@ == after_frame(old(self)@, elapsed_ms, pool_len, vertex_count),
    {
        if self.turned_off {
            assert(self@ == after_frame(old(self)@, 0, pool_len, vertex_count));
            return;
        }
        let elapsed = elapsed_millis(&self.fps_instant);
        if self.record_frame(elapsed, pool_len, vertex_count) {
            self.fps_instant = instant_now();
        }
    }

    /// The statistics as the lines of text that the renderer draws.
    pub fn as_text(&self) -> (r: String)
        ensures
            r@ == "fps: "@ + decimal(self@.frames_per_sec as nat) + "\nrequest time: "@ + decimal(
                self@.request_time as nat,
            ) + " us\npool creation time:"@ + decimal(self@.pool_creation_time as nat)
                + "\nelements:"@ + decimal(self@.pool_elements as nat) + "\nvertices:"@ + decimal(
                self@.pool_vertices as nat,
            ),
    {
        let mut s = String::from_str("fps: ");
        s.append(decimal_text(self.frames_per_sec as u128).as_str());
        s.append("\nrequest time: ");
        s.append(decimal_text(self.last_draw_request_time).as_str());
        s.append(" us\npool creation time:");
        s.append(decimal_text(self.last_draw_pool_creation_time).as_str());
        s.append("\nelements:");
        s.append(decimal_text(self.last_draw_pool_elements as u128).as_str());
        s.append("\nvertices:");
        s.append(decimal_text(self.last_draw_pool_vertices as u128).as_str());
        s
    }
}

} // verus!
