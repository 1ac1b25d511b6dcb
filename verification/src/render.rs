use vstd::prelude::*;

use crate::game::{Game, GameModel};
use crate::points::Point;

verus! {

/// A foreground colour of the terminal palette the game draws with, or
/// Reset for the default.
#[derive(Debug, Copy, Clone, Eq, PartialEq, Structural)]
pub enum DrawColor {
    Green,
    Cyan,
    Yellow,
    White,
    DarkGrey,
    Reset,
}

/// One cell to draw: a glyph in a colour at a terminal position. Positions
/// are grid coordinates shifted by one, since the border ring occupies row
/// and column zero.
#[derive(Debug, Copy, Clone, Eq, PartialEq, Structural)]
pub struct DrawCmd {
    pub x: u16,
    pub y: u16,
    pub glyph: char,
    pub color: DrawColor,
}

/// Whether `q` is the cell directly below `cur`.
pub open spec fn offset_down(cur: Point, q: Point) -> bool {
    q.x == cur.x && q.y == cur.y + 1
}

/// Whether `q` is the cell directly right of `cur`.
pub open spec fn offset_right(cur: Point, q: Point) -> bool {
    q.x == cur.x + 1 && q.y == cur.y
}

/// Whether `q` is the probe cell above `cur`: the cell directly above, or
/// `cur` itself on the top row, where the probe clamps to the grid edge.
pub open spec fn offset_up(cur: Point, q: Point) -> bool {
    if cur.y == 0 {
        q == cur
    } else {
        q.x == cur.x && q.y == cur.y - 1
    }
}

/// Whether `q` is the probe cell left of `cur`: the cell directly left, or
/// `cur` itself on the first column, where the probe clamps to the grid
/// edge.
pub open spec fn offset_left(cur: Point, q: Point) -> bool {
    if cur.x == 0 {
        q == cur
    } else {
        q.x == cur.x - 1 && q.y == cur.y
    }
}

/// The glyph of one body segment, read off the neighbours alone: the head
/// (no previous neighbour) is a head marker; an endpoint with one
/// neighbour is a straight piece aligned with it; an interior segment is
/// straight when its neighbours line up and otherwise the corner that
/// joins the two compass cells they occupy.
pub open spec fn spec_glyph(prev: Option<Point>, cur: Point, next: Option<Point>) -> char {
    match (prev, next) {
        (None, _) => 'O',
        (Some(p), None) => if cur.y == p.y {
            '═'
        } else {
            '║'
        },
        (Some(p), Some(n)) => if p.x == n.x {
            '║'
        } else if p.y == n.y {
            '═'
        } else if (offset_down(cur, n) && offset_right(cur, p)) || (offset_down(cur, p)
            && offset_right(cur, n)) {
            '╔'
        } else if (offset_down(cur, n) && offset_left(cur, p)) || (offset_down(cur, p)
            && offset_left(cur, n)) {
            '╗'
        } else if (offset_up(cur, n) && offset_right(cur, p)) || (offset_up(cur, p)
            && offset_right(cur, n)) {
            '╚'
        } else {
            '╝'
        },
    }
}

/// The colour the snake is drawn in, cycling with the speed.
pub open spec fn spec_snake_color(speed: u16) -> DrawColor {
    if speed % 3 == 0 {
        DrawColor::Green
    } else if speed % 3 == 1 {
        DrawColor::Cyan
    } else {
        DrawColor::Yellow
    }
}

/// The border draw list: the left and right wall cells row by row, then
/// the top and bottom wall cells column by column, then the four corners
/// once more, all '#' in dark grey. Walls sit one cell outside the
/// playable area, so they span width + 2 columns and height + 2 rows.
pub open spec fn border_cmd(width: u16, height: u16, i: int) -> DrawCmd {
    if i < 2 * (height + 2) {
        if i % 2 == 0 {
            DrawCmd { x: 0, y: (i / 2) as u16, glyph: '#', color: DrawColor::DarkGrey }
        } else {
            DrawCmd {
                x: (width + 1) as u16,
                y: (i / 2) as u16,
                glyph: '#',
                color: DrawColor::DarkGrey,
            }
        }
    } else if i < 2 * (height + 2) + 2 * (width + 2) {
        let j = i - 2 * (height + 2);
        if j % 2 == 0 {
            DrawCmd { x: (j / 2) as u16, y: 0, glyph: '#', color: DrawColor::DarkGrey }
        } else {
            DrawCmd {
                x: (j / 2) as u16,
                y: (height + 1) as u16,
                glyph: '#',
                color: DrawColor::DarkGrey,
            }
        }
    } else {
        let k = i - 2 * (height + 2) - 2 * (width + 2);
        if k == 0 {
            DrawCmd { x: 0, y: 0, glyph: '#', color: DrawColor::DarkGrey }
        } else if k == 1 {
            DrawCmd {
                x: (width + 1) as u16,
                y: (height + 1) as u16,
                glyph: '#',
                color: DrawColor::DarkGrey,
            }
        } else if k == 2 {
            DrawCmd { x: (width + 1) as u16, y: 0, glyph: '#', color: DrawColor::DarkGrey }
        } else {
            DrawCmd { x: 0, y: (height + 1) as u16, glyph: '#', color: DrawColor::DarkGrey }
        }
    }
}

/// The whole border draw list.
pub open spec fn border_seq(width: u16, height: u16) -> Seq<DrawCmd> {
    Seq::new((2 * (height + 2) + 2 * (width + 2) + 4) as nat, |i: int| border_cmd(width, height, i))
}

/// The background draw list: every playable cell blanked in the default
/// colour, row by row; cell i of the list covers grid cell
/// (i % width, i / width).
pub open spec fn background_cmd(width: u16, i: int) -> DrawCmd {
    DrawCmd {
        x: (1 + (i % (width as int))) as u16,
        y: (1 + (i / (width as int))) as u16,
        glyph: ' ',
        color: DrawColor::Reset,
    }
}

/// The whole background draw list.
pub open spec fn background_seq(width: u16, height: u16) -> Seq<DrawCmd> {
    Seq::new((width * height) as nat, |i: int| background_cmd(width, i))
}

/// The food draw list: one white dot, or nothing while no food is placed.
pub open spec fn food_seq(food: Option<Point>) -> Seq<DrawCmd> {
    match food {
        None => Seq::empty(),
        Some(p) => seq![
            DrawCmd {
                x: (p.x + 1) as u16,
                y: (p.y + 1) as u16,
                glyph: '•',
                color: DrawColor::White,
            },
        ],
    }
}

/// Body segment i drawn at its shifted position, with the glyph read off
/// its neighbours and the speed-cycled colour.
pub open spec fn snake_cmd(body: Seq<Point>, speed: u16, i: int) -> DrawCmd {
    let prev = if i == 0 {
        None
    } else {
        Some(body[i - 1])
    };
    let next = if i + 1 < body.len() {
        Some(body[i + 1])
    } else {
        None
    };
    DrawCmd {
        x: (body[i].x + 1) as u16,
        y: (body[i].y + 1) as u16,
        glyph: spec_glyph(prev, body[i], next),
        color: spec_snake_color(speed),
    }
}

/// The whole snake draw list, head first.
pub open spec fn snake_seq(body: Seq<Point>, speed: u16) -> Seq<DrawCmd> {
    Seq::new(body.len(), |i: int| snake_cmd(body, speed, i))
}

/// Everything one full redraw paints, in drawing order: border, background,
/// food, snake.
pub open spec fn render_seq(g: GameModel) -> Seq<DrawCmd> {
    border_seq(g.width, g.height) + background_seq(g.width, g.height) + food_seq(g.food)
        + snake_seq(g.snake.body, g.speed)
}

/// Computes the glyph of one body segment from its neighbours. Coordinates
/// below u16::MAX leave room for the one-cell probes this reads.
pub fn segment_glyph(prev: Option<Point>, cur: Point, next: Option<Point>) -> (r: char)
    requires
        cur.x < u16::MAX,
        cur.y < u16::MAX,
    ensures
        r == spec_glyph(prev, cur, next),
{
    match (prev, next) {
        (None, _) => 'O',
        (Some(p), None) => if cur.y == p.y {
            '═'
        } else {
            '║'
        },
        (Some(p), Some(n)) => {
            if p.x == n.x {
                '║'
            } else if p.y == n.y {
                '═'
            } else {
                let p_down = p.x == cur.x && p.y == cur.y + 1;
                let n_down = n.x == cur.x && n.y == cur.y + 1;
                let p_right = p.x == cur.x + 1 && p.y == cur.y;
                let n_right = n.x == cur.x + 1 && n.y == cur.y;
                let p_up = if cur.y == 0 {
                    p == cur
                } else {
                    p.x == cur.x && p.y == cur.y - 1
                };
                let n_up = if cur.y == 0 {
                    n == cur
                } else {
                    n.x == cur.x && n.y == cur.y - 1
                };
                let p_left = if cur.x == 0 {
                    p == cur
                } else {
                    p.x == cur.x - 1 && p.y == cur.y
                };
                let n_left = if cur.x == 0 {
                    n == cur
                } else {
                    n.x == cur.x - 1 && n.y == cur.y
                };
                if (n_down && p_right) || (p_down && n_right) {
                    '╔'
                } else if (n_down && p_left) || (p_down && n_left) {
                    '╗'
                } else if (n_up && p_right) || (p_up && n_right) {
                    '╚'
                } else {
                    '╝'
                }
            }
        },
    }
}

impl Game {
    /// The border draw list for this game's grid.
    #[verifier::loop_isolation(false)]
    pub fn border_cells(&self) -> (r: Vec<DrawCmd>)
        requires
            self@.wf(),
        ensures
            r@ == border_seq(self@.width, self@.height),
    {
        proof {
            crate::game::lemma_grid_dims(self@);
        }
        let width = self.width();
        let height = self.height();
        let mut r: Vec<DrawCmd> = Vec::new();
        let mut y: u16 = 0;
        while y < height + 2
            invariant
                y <= height + 2,
                r@.len() == 2 * y,
                forall|i: int| 0 <= i < r@.len() ==> r@[i] == border_cmd(width, height, i),
            decreases height + 2 - y,
        {
            r.push(DrawCmd { x: 0, y, glyph: '#', color: DrawColor::DarkGrey });
            r.push(DrawCmd { x: width + 1, y, glyph: '#', color: DrawColor::DarkGrey });
            y = y + 1;
        }
        let mut x: u16 = 0;
        while x < width + 2
            invariant
                x <= width + 2,
                r@.len() == 2 * (height + 2) + 2 * x,
                forall|i: int| 0 <= i < r@.len() ==> r@[i] == border_cmd(width, height, i),
            decreases width + 2 - x,
        {
            r.push(DrawCmd { x, y: 0, glyph: '#', color: DrawColor::DarkGrey });
            r.push(DrawCmd { x, y: height + 1, glyph: '#', color: DrawColor::DarkGrey });
            x = x + 1;
        }
        r.push(DrawCmd { x: 0, y: 0, glyph: '#', color: DrawColor::DarkGrey });
        r.push(DrawCmd { x: width + 1, y: height + 1, glyph: '#', color: DrawColor::DarkGrey });
        r.push(DrawCmd { x: width + 1, y: 0, glyph: '#', color: DrawColor::DarkGrey });
        r.push(DrawCmd { x: 0, y: height + 1, glyph: '#', color: DrawColor::DarkGrey });
        proof {
            assert(r@ =~= border_seq(width, height));
        }
        r
    }

    /// The background draw list for this game's grid.
    #[verifier::loop_isolation(false)]
    pub fn background_cells(&self) -> (r: Vec<DrawCmd>)
        requires
            self@.wf(),
        ensures
            r@ == background_seq(self@.width, self@.height),
    {
        let width = self.width();
        let height = self.height();
        let total = width * height;
        let mut r: Vec<DrawCmd> = Vec::new();
        let mut i: u16 = 0;
        while i < total
            invariant
                i <= total,
                r@.len() == i,
                forall|j: int| 0 <= j < r@.len() ==> r@[j] == background_cmd(width, j),
            decreases total - i,
        {
            r.push(DrawCmd { x: 1 + (i % width), y: 1 + (i / width), glyph: ' ', color: DrawColor::Reset });
            i = i + 1;
        }
        proof {
            assert(r@ =~= background_seq(width, height));
        }
        r
    }

    /// The food draw list: one dot, or nothing while no food is placed.
    pub fn food_cells(&self) -> (r: Vec<DrawCmd>)
        requires
            self@.wf(),
        ensures
            r@ == food_seq(self@.food),
    {
        let mut r: Vec<DrawCmd> = Vec::new();
        if let Some(p) = self.food() {
            r.push(DrawCmd { x: p.x + 1, y: p.y + 1, glyph: '•', color: DrawColor::White });
        }
        proof {
            assert(r@ =~= food_seq(self@.food));
        }
        r
    }

    /// The snake draw list, one command per body segment, head first.
    #[verifier::loop_isolation(false)]
    pub fn snake_cells(&self) -> (r: Vec<DrawCmd>)
        requires
            self@.wf(),
        ensures
            r@ == snake_seq(self@.snake.body, self@.speed),
    {
        let body_points = self.snake().get_body_points();
        let speed = self.speed();
        let color = if speed % 3 == 0 {
            DrawColor::Green
        } else if speed % 3 == 1 {
            DrawColor::Cyan
        } else {
            DrawColor::Yellow
        };
        let mut r: Vec<DrawCmd> = Vec::new();
        let mut i: usize = 0;
        while i < body_points.len()
            invariant
                i <= body_points@.len(),
                r@.len() == i,
                color == spec_snake_color(self@.speed),
                forall|j: int|
                    0 <= j < r@.len() ==> r@[j] == snake_cmd(self@.snake.body, self@.speed, j),
            decreases body_points@.len() - i,
        {
            let cur = body_points[i];
            let prev = if i == 0 {
                None
            } else {
                Some(body_points[i - 1])
            };
            let next = if i + 1 < body_points.len() {
                Some(body_points[i + 1])
            } else {
                None
            };
            let glyph = segment_glyph(prev, cur, next);
            r.push(DrawCmd { x: cur.x + 1, y: cur.y + 1, glyph, color });
            i = i + 1;
        }
        proof {
            assert(r@ =~= snake_seq(self@.snake.body, self@.speed));
        }
        r
    }

    /// Everything one full redraw paints, in drawing order: the border
    /// ring, the blanked background, the food dot, then the snake glyphs.
    pub fn render(&self) -> (r: Vec<DrawCmd>)
        requires
            self@.wf(),
        ensures
            r@ == render_seq(self@),
    {
        let mut r = self.border_cells();
        let mut background = self.background_cells();
        let mut food = self.food_cells();
        let mut snake_part = self.snake_cells();
        r.append(&mut background);
        r.append(&mut food);
        r.append(&mut snake_part);
        r
    }
}

} // verus!
