//! Application state: the screen state machine and the bouncing-shape
//! animation, with the update rules that drive both.
//!
//! Positions, velocities and the animation viewport are integers on the
//! drawing plane; the embedding binary converts them to whatever its
//! canvas expects when it draws a frame.

use vstd::prelude::*;

verus! {

/// Horizontal start position of the heart.
pub const START_X: i64 = 5;

/// Vertical start position of the heart.
pub const START_Y: i64 = 5;

/// Radius of the heart; never mutated, always positive.
pub const START_RADIUS: i64 = 1;

/// Initial speed along each axis.
pub const START_SPEED: i64 = 3;

/// Horizontal position the heart is moved back to on certain screen changes.
pub const RESET_X: i64 = 10;

/// Vertical position the heart is moved back to on certain screen changes.
pub const RESET_Y: i64 = 10;

/// A key press, reduced to what the state machine inspects: a character
/// key, or any other key (which only ever acts as "some key was pressed").
#[derive(Clone, Copy, PartialEq, Eq, Structural, Debug)]
pub enum Key {
    Char(char),
    Other,
}

/// Which top-level screen is active.
#[derive(Clone, Copy, PartialEq, Eq, Structural, Debug)]
pub enum CurrentScreen {
    IntroScreen,
    WillYouBeMyValentine,
    NotValentine,
    YesValentine,
    DateInfo,
}

/// Which of the three introductory greetings is showing while the intro
/// screen is active.
#[derive(Clone, Copy, PartialEq, Eq, Structural, Debug)]
pub enum IntroScreenOptions {
    Screen1,
    Screen2,
    Screen3,
}

impl Default for CurrentScreen {
    fn default() -> (r: Self)
        ensures
            r == CurrentScreen::WillYouBeMyValentine,
    {
        CurrentScreen::WillYouBeMyValentine
    }
}

impl Default for IntroScreenOptions {
    fn default() -> (r: Self)
        ensures
            r == IntroScreenOptions::Screen1,
    {
        IntroScreenOptions::Screen1
    }
}

/// The animated shape: center position and radius of the heart outline on
/// the drawing plane.
#[derive(Clone, Copy, PartialEq, Eq, Structural, Debug)]
pub struct Heart {
    pub x: i64,
    pub y: i64,
    pub radius: i64,
}

/// The rectangle the animation bounces in. It mirrors the drawable pane the
/// renderer last used, so collision tests run against the previous frame's
/// geometry; that one-frame lag is intended.
#[derive(Clone, Copy, PartialEq, Eq, Structural, Debug)]
pub struct Playground {
    pub x: u16,
    pub y: u16,
    pub width: u16,
    pub height: u16,
}

impl Playground {
    /// Left edge of the viewport.
    pub open spec fn left(self) -> int {
        self.x as int
    }

    /// Right edge of the viewport.
    pub open spec fn right(self) -> int {
        self.x + self.width
    }

    /// Top edge of the viewport.
    pub open spec fn top(self) -> int {
        self.y as int
    }

    /// Bottom edge of the viewport.
    pub open spec fn bottom(self) -> int {
        self.y + self.height
    }
}

/// The whole application state threaded through the event loop.
#[derive(Clone, Copy, PartialEq, Eq, Structural, Debug)]
pub struct App {
    /// Set by the quit key; once true the loop stops after its iteration.
    pub exit: bool,
    pub current_screen: CurrentScreen,
    pub intro_screen: IntroScreenOptions,
    pub heart: Heart,
    pub playground: Playground,
    pub vx: i64,
    pub vy: i64,
    pub tick_count: u64,
    /// Index of the decorative backdrop density, always `floor(tick_count / 12) % 4`.
    pub offset: u8,
}

/// The backdrop density index that belongs to a tick count.
pub open spec fn spec_offset_for(ticks: int) -> int {
    (ticks / 12) % 4
}

impl App {
    /// Invariants kept by every update: the radius stays positive and the
    /// pattern offset tracks the tick counter.
    pub open spec fn wf(self) -> bool {
        &&& self.heart.radius > 0
        &&& self.offset as int == spec_offset_for(self.tick_count as int)
    }

    pub fn new() -> (r: App)
        ensures
            r == (App {
                exit: false,
                current_screen: CurrentScreen::IntroScreen,
                intro_screen: IntroScreenOptions::Screen1,
                heart: Heart { x: START_X, y: START_Y, radius: START_RADIUS },
                playground: Playground { x: 0, y: 0, width: 200, height: 100 },
                vx: START_SPEED,
                vy: START_SPEED,
                tick_count: 0,
                offset: 0,
            }),
            r.wf(),
    {
        App {
            exit: false,
            current_screen: CurrentScreen::IntroScreen,
            intro_screen: IntroScreenOptions::Screen1,
            heart: Heart { x: START_X, y: START_Y, radius: START_RADIUS },
            playground: Playground { x: 0, y: 0, width: 200, height: 100 },
            vx: START_SPEED,
            vy: START_SPEED,
            tick_count: 0,
            offset: 0,
        }
    }

    /// Request that the event loop stop; nothing else changes.
    pub fn exit(&mut self)
        ensures
            *final(self) == (App { exit: true, ..*old(self) }),
    {
        self.exit = true;
    }
}

/// The quit key: a lowercase 'q', checked before any screen handling.
pub open spec fn is_quit(key: Key) -> bool {
    key == Key::Char('q')
}

/// A yes answer: 'y' in either case.
pub open spec fn is_yes(key: Key) -> bool {
    key == Key::Char('y') || key == Key::Char('Y')
}

/// A no answer: 'n' in either case.
pub open spec fn is_no(key: Key) -> bool {
    key == Key::Char('n') || key == Key::Char('N')
}

/// The screen transition table for a non-quit key press.
pub open spec fn spec_next_screen(
    cur: CurrentScreen,
    intro: IntroScreenOptions,
    key: Key,
) -> (CurrentScreen, IntroScreenOptions) {
    match cur {
        CurrentScreen::IntroScreen => match intro {
            IntroScreenOptions::Screen1 => (CurrentScreen::IntroScreen, IntroScreenOptions::Screen2),
            IntroScreenOptions::Screen2 => (CurrentScreen::IntroScreen, IntroScreenOptions::Screen3),
            IntroScreenOptions::Screen3 => (
                CurrentScreen::WillYouBeMyValentine,
                IntroScreenOptions::Screen3,
            ),
        },
        CurrentScreen::WillYouBeMyValentine => {
            if is_yes(key) {
                (CurrentScreen::YesValentine, intro)
            } else if is_no(key) {
                (CurrentScreen::NotValentine, intro)
            } else {
                (cur, intro)
            }
        },
        CurrentScreen::NotValentine => (CurrentScreen::WillYouBeMyValentine, intro),
        CurrentScreen::YesValentine => {
            if is_yes(key) {
                (CurrentScreen::DateInfo, intro)
            } else if is_no(key) {
                (CurrentScreen::WillYouBeMyValentine, intro)
            } else {
                (cur, intro)
            }
        },
        CurrentScreen::DateInfo => (cur, intro),
    }
}

/// Whether a non-quit key press moves the heart back to the reset point:
/// leaving the last greeting, leaving the declined screen, or answering the
/// follow-up question either way.
pub open spec fn spec_repositions(cur: CurrentScreen, intro: IntroScreenOptions, key: Key) -> bool {
    match cur {
        CurrentScreen::IntroScreen => intro == IntroScreenOptions::Screen3,
        CurrentScreen::WillYouBeMyValentine => false,
        CurrentScreen::NotValentine => true,
        CurrentScreen::YesValentine => is_yes(key) || is_no(key),
        CurrentScreen::DateInfo => false,
    }
}

impl App {
    /// The state after one key press: the quit key only sets the exit flag;
    /// any other key moves through the transition table, repositioning the
    /// heart where the table says so.
    pub open spec fn spec_step_key(self, key: Key) -> App {
        if is_quit(key) {
            App { exit: true, ..self }
        } else {
            let (cur, intro) = spec_next_screen(self.current_screen, self.intro_screen, key);
            App {
                current_screen: cur,
                intro_screen: intro,
                heart: if spec_repositions(self.current_screen, self.intro_screen, key) {
                    Heart { x: RESET_X, y: RESET_Y, radius: self.heart.radius }
                } else {
                    self.heart
                },
                ..self
            }
        }
    }

    /// Answer the main prompt: 'y' accepts, 'n' declines, anything else is
    /// ignored. Touches nothing but the current screen.
    pub fn handle_wybmv_event(&mut self, key: Key)
        ensures
            *final(self) == (App {
                current_screen: if is_yes(key) {
                    CurrentScreen::YesValentine
                } else if is_no(key) {
                    CurrentScreen::NotValentine
                } else {
                    old(self).current_screen
                },
                ..*old(self)
            }),
    {
        if key == Key::Char('y') || key == Key::Char('Y') {
            self.current_screen = CurrentScreen::YesValentine;
        } else if key == Key::Char('n') || key == Key::Char('N') {
            self.current_screen = CurrentScreen::NotValentine;
        }
    }

    /// Any key on the declined screen returns to the prompt. Touches nothing
    /// but the current screen.
    pub fn handle_notvalentine_event(&mut self, _key: Key)
        ensures
            *final(self) == (App {
                current_screen: CurrentScreen::WillYouBeMyValentine,
                ..*old(self)
            }),
    {
        self.current_screen = CurrentScreen::WillYouBeMyValentine;
    }

    /// Answer the follow-up question: 'y' shows the date details, 'n' returns
    /// to the prompt, anything else is ignored. Touches nothing but the
    /// current screen.
    pub fn handle_yesvalentine_event(&mut self, key: Key)
        ensures
            *final(self) == (App {
                current_screen: if is_yes(key) {
                    CurrentScreen::DateInfo
                } else if is_no(key) {
                    CurrentScreen::WillYouBeMyValentine
                } else {
                    old(self).current_screen
                },
                ..*old(self)
            }),
    {
        if key == Key::Char('y') || key == Key::Char('Y') {
            self.current_screen = CurrentScreen::DateInfo;
        } else if key == Key::Char('n') || key == Key::Char('N') {
            self.current_screen = CurrentScreen::WillYouBeMyValentine;
        }
    }

    /// Dispatch one key press: quit short-circuits everything and only sets
    /// the exit flag; otherwise the transition table decides the next screen
    /// and whether the heart moves back to the reset point.
    pub fn handle_key_event(&mut self, key: Key)
        ensures
            *final(self) == old(self).spec_step_key(key),
    {
        if key == Key::Char('q') {
            self.exit();
        } else {
            match self.current_screen {
                CurrentScreen::IntroScreen => {
                    match self.intro_screen {
                        IntroScreenOptions::Screen1 => {
                            self.intro_screen = IntroScreenOptions::Screen2;
                        },
                        IntroScreenOptions::Screen2 => {
                            self.intro_screen = IntroScreenOptions::Screen3;
                        },
                        IntroScreenOptions::Screen3 => {
                            self.current_screen = CurrentScreen::WillYouBeMyValentine;
                            self.heart.x = RESET_X;
                            self.heart.y = RESET_Y;
                        },
                    }
                },
                CurrentScreen::WillYouBeMyValentine => {
                    self.handle_wybmv_event(key);
                },
                CurrentScreen::NotValentine => {
                    self.handle_notvalentine_event(key);
                    self.heart.x = RESET_X;
                    self.heart.y = RESET_Y;
                },
                CurrentScreen::YesValentine => {
                    let answered = key == Key::Char('y') || key == Key::Char('Y')
                        || key == Key::Char('n') || key == Key::Char('N');
                    self.handle_yesvalentine_event(key);
                    if answered {
                        self.heart.x = RESET_X;
                        self.heart.y = RESET_Y;
                    }
                },
                CurrentScreen::DateInfo => {},
            }
        }
    }
}

/// Magnitude of a velocity component.
pub open spec fn abs_val(v: int) -> int {
    if v < 0 {
        -v
    } else {
        v
    }
}

impl App {
    /// Whether the heart, before this tick's movement, stands at or past a
    /// vertical edge of the viewport.
    pub open spec fn hits_horizontal(self) -> bool {
        self.heart.x - self.heart.radius < self.playground.left()
            || self.heart.x + self.heart.radius > self.playground.right()
    }

    /// Whether the heart, before this tick's movement, stands at or past a
    /// horizontal edge of the viewport.
    pub open spec fn hits_vertical(self) -> bool {
        self.heart.y - self.heart.radius < self.playground.top()
            || self.heart.y + self.heart.radius > self.playground.bottom()
    }

    /// The horizontal velocity after this tick's reflection test.
    pub open spec fn next_vx(self) -> int {
        if self.hits_horizontal() {
            -(self.vx as int)
        } else {
            self.vx as int
        }
    }

    /// The vertical velocity after this tick's reflection test.
    pub open spec fn next_vy(self) -> int {
        if self.hits_vertical() {
            -(self.vy as int)
        } else {
            self.vy as int
        }
    }

    /// Advance the animation by one fixed step: count the tick, cycle the
    /// backdrop pattern every twelfth tick, reflect the velocity off any
    /// viewport edge the heart has reached, then move the heart. Reflection
    /// is an exact sign flip; the screens, the exit flag and the viewport
    /// are untouched.
    pub fn on_tick(&mut self)
        requires
            old(self).wf(),
            old(self).tick_count < u64::MAX,
            abs_val(old(self).vx as int) <= i64::MAX,
            abs_val(old(self).vy as int) <= i64::MAX,
            i64::MIN <= old(self).heart.x - abs_val(old(self).vx as int),
            old(self).heart.x + abs_val(old(self).vx as int) <= i64::MAX,
            i64::MIN <= old(self).heart.y - abs_val(old(self).vy as int),
            old(self).heart.y + abs_val(old(self).vy as int) <= i64::MAX,
        ensures
            final(self).wf(),
            final(self).tick_count == old(self).tick_count + 1,
            final(self).offset as int == spec_offset_for(final(self).tick_count as int),
            final(self).vx as int == old(self).next_vx(),
            final(self).vy as int == old(self).next_vy(),
            final(self).heart.x as int == old(self).heart.x + old(self).next_vx(),
            final(self).heart.y as int == old(self).heart.y + old(self).next_vy(),
            final(self).heart.radius == old(self).heart.radius,
            final(self).exit == old(self).exit,
            final(self).current_screen == old(self).current_screen,
            final(self).intro_screen == old(self).intro_screen,
            final(self).playground == old(self).playground,
    {
        proof {
            lemma_offset_step(self.tick_count as int);
            vstd::arithmetic::div_mod::lemma_mod_bound(
                self.tick_count as int / 12,
                4,
            );
        }
        self.tick_count = self.tick_count + 1;
        if self.tick_count % 12 == 0 {
            self.offset = (self.offset + 1) % 4;
        }

        let hit_x = (self.heart.x as i128) - (self.heart.radius as i128)
            < (self.playground.x as i128)
            || (self.heart.x as i128) + (self.heart.radius as i128)
                > (self.playground.x as i128) + (self.playground.width as i128);
        if hit_x {
            self.vx = -self.vx;
        }
        let hit_y = (self.heart.y as i128) - (self.heart.radius as i128)
            < (self.playground.y as i128)
            || (self.heart.y as i128) + (self.heart.radius as i128)
                > (self.playground.y as i128) + (self.playground.height as i128);
        if hit_y {
            self.vy = -self.vy;
        }

        self.heart.x = self.heart.x + self.vx;
        self.heart.y = self.heart.y + self.vy;
    }
}

/// Counting one more tick keeps the backdrop index in step: it advances by
/// one (mod 4) on every twelfth tick and stands still otherwise.
proof fn lemma_offset_step(n: int)
    requires
        n >= 0,
    ensures
        (n + 1) % 12 == 0 ==> spec_offset_for(n + 1) == (spec_offset_for(n) + 1) % 4,
        (n + 1) % 12 != 0 ==> spec_offset_for(n + 1) == spec_offset_for(n),
{
    vstd::arithmetic::div_mod::lemma_fundamental_div_mod(n + 1, 12);
    vstd::arithmetic::div_mod::lemma_mod_bound(n + 1, 12);
    if (n + 1) % 12 == 0 {
        vstd::arithmetic::div_mod::lemma_fundamental_div_mod_converse(
            n,
            12,
            (n + 1) / 12 - 1,
            11,
        );
        vstd::arithmetic::div_mod::lemma_add_mod_noop(n / 12, 1, 4);
        vstd::arithmetic::div_mod::lemma_mod_bound(1, 4);
        assert((n / 12) % 4 % 4 == (n / 12) % 4) by {
            vstd::arithmetic::div_mod::lemma_mod_bound(n / 12, 4);
            vstd::arithmetic::div_mod::lemma_small_mod(((n / 12) % 4) as nat, 4);
        };
    } else {
        vstd::arithmetic::div_mod::lemma_fundamental_div_mod_converse(
            n,
            12,
            (n + 1) / 12,
            (n + 1) % 12 - 1,
        );
    }
}

/// A boundary breach on an axis flips that axis's velocity exactly once per
/// tick, and the two axes are independent: each reflects only against its
/// own pair of edges.
pub proof fn lemma_reflection(s: App)
    ensures
        s.hits_horizontal() ==> s.next_vx() == -(s.vx as int),
        !s.hits_horizontal() ==> s.next_vx() == s.vx as int,
        s.hits_vertical() ==> s.next_vy() == -(s.vy as int),
        !s.hits_vertical() ==> s.next_vy() == s.vy as int,
{
}

/// One animation tick, as a relation on the velocity components: what
/// `on_tick` ensures about them.
pub open spec fn tick_step(pre: App, post: App) -> bool {
    post.vx as int == pre.next_vx() && post.vy as int == pre.next_vy()
}

/// Velocity magnitude is invariant under any number of ticks, however many
/// reflections they contain: a reflection changes only the sign.
pub proof fn lemma_speed_invariant(trace: Seq<App>)
    requires
        trace.len() >= 1,
        forall|i: int| 0 <= i < trace.len() - 1 ==> #[trigger] tick_step(trace[i], trace[i + 1]),
    ensures
        abs_val(trace.last().vx as int) == abs_val(trace[0].vx as int),
        abs_val(trace.last().vy as int) == abs_val(trace[0].vy as int),
    decreases trace.len(),
{
    if trace.len() > 1 {
        let shorter = trace.drop_last();
        assert forall|i: int| 0 <= i < shorter.len() - 1 implies #[trigger] tick_step(
            shorter[i],
            shorter[i + 1],
        ) by {
            assert(tick_step(trace[i], trace[i + 1]));
        }
        lemma_speed_invariant(shorter);
        let j: int = trace.len() - 2;
        assert(tick_step(trace[j], trace[j + 1]));
        assert(shorter.last() == trace[j]);
        assert(trace[0] == shorter[0]);
    }
}

/// No key press disturbs the animation invariants: the state machine never
/// touches the radius, the tick counter or the pattern offset, so a state
/// that is fit for `on_tick` stays fit after any key.
pub proof fn lemma_step_key_preserves_wf(s: App, k: Key)
    requires
        s.wf(),
    ensures
        s.spec_step_key(k).wf(),
{
}

/// From the first greeting, three non-quit key presses reach the prompt.
pub proof fn lemma_intro_reaches_prompt(s: App, k1: Key, k2: Key, k3: Key)
    requires
        s.current_screen == CurrentScreen::IntroScreen,
        s.intro_screen == IntroScreenOptions::Screen1,
        !is_quit(k1),
        !is_quit(k2),
        !is_quit(k3),
    ensures
        s.spec_step_key(k1).spec_step_key(k2).spec_step_key(k3).current_screen
            == CurrentScreen::WillYouBeMyValentine,
{
}

/// From the prompt, a yes reaches the accepted screen; from there, a second
/// yes reaches the date screen; and no non-quit key leaves the date screen.
pub proof fn lemma_yes_path(s: App, k: Key)
    requires
        !is_quit(k),
    ensures
        s.current_screen == CurrentScreen::WillYouBeMyValentine && is_yes(k)
            ==> s.spec_step_key(k).current_screen == CurrentScreen::YesValentine,
        s.current_screen == CurrentScreen::YesValentine && is_yes(k)
            ==> s.spec_step_key(k).current_screen == CurrentScreen::DateInfo,
        s.current_screen == CurrentScreen::DateInfo
            ==> s.spec_step_key(k).current_screen == CurrentScreen::DateInfo,
{
}

/// Declining and then pressing any non-quit key returns to the prompt, not
/// to the intro.
pub proof fn lemma_decline_round_trip(s: App, k: Key)
    requires
        s.current_screen == CurrentScreen::WillYouBeMyValentine,
        !is_quit(k),
    ensures
        s.spec_step_key(Key::Char('n')).current_screen == CurrentScreen::NotValentine,
        s.spec_step_key(Key::Char('n')).spec_step_key(k).current_screen
            == CurrentScreen::WillYouBeMyValentine,
{
}

/// The quit key, from any state, sets the exit flag and performs no screen
/// transition and no other change at all.
pub proof fn lemma_quit_only_exits(s: App, k: Key)
    requires
        is_quit(k),
    ensures
        s.spec_step_key(k) == (App { exit: true, ..s }),
        s.spec_step_key(k).current_screen == s.current_screen,
        s.spec_step_key(k).intro_screen == s.intro_screen,
        s.spec_step_key(k).heart == s.heart,
{
}

} // verus!

