use snake_game::direction::Direction;
use snake_game::game::Game;
use snake_game::points::Point;
use snake_game::render::{segment_glyph, DrawColor, DrawCmd};
use snake_game::snake::Snake;

#[test]
fn head_gets_the_head_marker() {
    // the head has no previous neighbour
    assert_eq!(segment_glyph(None, Point::new(2, 2), Some(Point::new(3, 2))), 'O');
    assert_eq!(segment_glyph(None, Point::new(2, 2), Some(Point::new(2, 3))), 'O');
    // a lone segment has no neighbour at all
    assert_eq!(segment_glyph(None, Point::new(2, 2), None), 'O');
}

#[test]
fn tail_aligns_with_its_only_neighbour() {
    assert_eq!(segment_glyph(Some(Point::new(1, 2)), Point::new(2, 2), None), '═');
    assert_eq!(segment_glyph(Some(Point::new(3, 2)), Point::new(2, 2), None), '═');
    assert_eq!(segment_glyph(Some(Point::new(2, 1)), Point::new(2, 2), None), '║');
    assert_eq!(segment_glyph(Some(Point::new(2, 3)), Point::new(2, 2), None), '║');
}

#[test]
fn straight_interior_segments_align_with_their_neighbours() {
    assert_eq!(
        segment_glyph(Some(Point::new(2, 1)), Point::new(2, 2), Some(Point::new(2, 3))),
        '║'
    );
    assert_eq!(
        segment_glyph(Some(Point::new(1, 2)), Point::new(2, 2), Some(Point::new(3, 2))),
        '═'
    );
}

#[test]
fn corner_segments_join_their_neighbours() {
    let cur = Point::new(2, 2);
    let up = Point::new(2, 1);
    let down = Point::new(2, 3);
    let left = Point::new(1, 2);
    let right = Point::new(3, 2);
    assert_eq!(segment_glyph(Some(right), cur, Some(down)), '╔');
    assert_eq!(segment_glyph(Some(down), cur, Some(right)), '╔');
    assert_eq!(segment_glyph(Some(left), cur, Some(down)), '╗');
    assert_eq!(segment_glyph(Some(down), cur, Some(left)), '╗');
    assert_eq!(segment_glyph(Some(right), cur, Some(up)), '╚');
    assert_eq!(segment_glyph(Some(up), cur, Some(right)), '╚');
    assert_eq!(segment_glyph(Some(left), cur, Some(up)), '╝');
    assert_eq!(segment_glyph(Some(up), cur, Some(left)), '╝');
}

#[test]
fn render_paints_border_background_food_then_snake() {
    let snake = Snake::new(Point::new(2, 2), 1, Direction::Right);
    let mut game = Game::with_snake(5, 5, snake);
    game.force_food(Point::new(3, 2));
    let cmds = game.render();

    // 2*(h+2) + 2*(w+2) + 4 border cells, w*h background cells, one food
    // dot and one snake segment
    let border_len = 2 * 7 + 2 * 7 + 4;
    assert_eq!(cmds.len(), border_len + 25 + 1 + 1);

    // the border starts down the left wall
    assert_eq!(
        cmds[0],
        DrawCmd { x: 0, y: 0, glyph: '#', color: DrawColor::DarkGrey }
    );
    assert_eq!(
        cmds[1],
        DrawCmd { x: 6, y: 0, glyph: '#', color: DrawColor::DarkGrey }
    );
    // every border cell is a dark grey hash on the border ring
    for cmd in &cmds[..border_len] {
        assert_eq!(cmd.glyph, '#');
        assert_eq!(cmd.color, DrawColor::DarkGrey);
        assert!(cmd.x == 0 || cmd.x == 6 || cmd.y == 0 || cmd.y == 6);
    }

    // the background blanks the playable area, shifted inside the border
    let background = &cmds[border_len..border_len + 25];
    assert_eq!(
        background[0],
        DrawCmd { x: 1, y: 1, glyph: ' ', color: DrawColor::Reset }
    );
    assert_eq!(
        background[24],
        DrawCmd { x: 5, y: 5, glyph: ' ', color: DrawColor::Reset }
    );

    // the food dot sits at its shifted position
    assert_eq!(
        cmds[border_len + 25],
        DrawCmd { x: 4, y: 3, glyph: '•', color: DrawColor::White }
    );

    // a lone snake segment is the head marker; at speed 20 the colour
    // cycle lands on yellow
    assert_eq!(
        cmds[border_len + 26],
        DrawCmd { x: 3, y: 3, glyph: 'O', color: DrawColor::Yellow }
    );
}

#[test]
fn render_skips_the_food_before_first_placement() {
    let snake = Snake::new(Point::new(2, 2), 3, Direction::Right);
    let game = Game::with_snake(5, 5, snake);
    let cmds = game.render();
    let border_len = 2 * 7 + 2 * 7 + 4;
    assert_eq!(cmds.len(), border_len + 25 + 3);
    assert!(cmds.iter().all(|c| c.glyph != '•'));
}

#[test]
fn render_draws_one_glyph_per_segment() {
    // an L-shaped snake: corner at (2,2)
    let mut snake = Snake::new(Point::new(2, 1), 2, Direction::Down);
    snake.grow();
    snake.slither();
    snake.set_direction(Direction::Right);
    snake.grow();
    snake.slither();
    // body: head (3,2), corner (2,2), (2,1), tail (2,0)
    let game = Game::with_snake(5, 5, snake);
    let cmds = game.render();
    let border_len = 2 * 7 + 2 * 7 + 4;
    let snake_cmds = &cmds[border_len + 25..];
    assert_eq!(snake_cmds.len(), 4);
    assert_eq!(snake_cmds[0].glyph, 'O');
    assert_eq!(snake_cmds[0].x, 4);
    assert_eq!(snake_cmds[0].y, 3);
    assert_eq!(snake_cmds[1].glyph, '╚');
    assert_eq!(snake_cmds[2].glyph, '║');
    assert_eq!(snake_cmds[3].glyph, '║');
}
