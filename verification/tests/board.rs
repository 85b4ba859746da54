use igo_app::{
    is_star, setup_in_game_ui, star_points, tick_game, update_in_game, Board, BoardCell, BoardGrid,
    MoveChoice, Scope, ScreenState, SetupHandler, Stone, StonePos, TurnDriver,
};

fn visible_cells(grid: &BoardGrid) -> Vec<BoardCell> {
    grid.cells().iter().copied().filter(|cell| cell.visible).collect()
}

#[test]
fn fresh_grid_of_size_nine_has_81_hidden_cells() {
    let layout = setup_in_game_ui(9);
    assert_eq!(layout.line_count, 9);
    assert_eq!(layout.grid.size(), 9);
    assert_eq!(layout.grid.cells().len(), 81);
    assert!(layout.grid.cells().iter().all(|cell| !cell.visible));
    assert!(layout.grid.cells().iter().all(|cell| cell.material == Stone::Black));
}

#[test]
fn grid_holds_one_cell_for_each_coordinate_in_order() {
    let grid = BoardGrid::new(9);
    for (index, cell) in grid.cells().iter().enumerate() {
        assert_eq!(cell.pos, StonePos { x: (index / 9) as u8, y: (index % 9) as u8 });
    }
    assert_eq!(grid.cells()[0].pos, StonePos { x: 0, y: 0 });
    assert_eq!(grid.cells()[1].pos, StonePos { x: 0, y: 1 });
    assert_eq!(grid.cells()[9].pos, StonePos { x: 1, y: 0 });
    assert_eq!(grid.cells()[80].pos, StonePos { x: 8, y: 8 });
}

#[test]
fn grid_sizes_at_the_edges() {
    assert_eq!(BoardGrid::new(0).cells().len(), 0);
    assert_eq!(BoardGrid::new(1).cells().len(), 1);
    assert_eq!(BoardGrid::new(19).cells().len(), 361);
    assert_eq!(BoardGrid::new(255).cells().len(), 65025);
    assert_eq!(BoardGrid::new(255).cells()[65024].pos, StonePos { x: 254, y: 254 });
}

#[test]
fn one_move_makes_exactly_one_cell_visible_in_the_movers_colour() {
    let mut grid = setup_in_game_ui(9).grid;
    let mut board = Board::new(9);
    let mut driver = TurnDriver::new(Stone::Black);
    let mover = driver.turn();
    let legal: Vec<StonePos> = grid.cells().iter().map(|cell| cell.pos).collect();
    let played = match tick_game(&mut driver, legal.len()) {
        MoveChoice::Play(index) => legal[index],
        MoveChoice::Pass(_) => panic!("a pass although moves are legal"),
    };
    assert!(board.set_stone(played.x, played.y, Some(mover)));
    update_in_game(&mut grid, &board);
    let visible = visible_cells(&grid);
    assert_eq!(visible, vec![BoardCell { pos: played, material: Stone::Black, visible: true }]);
    assert_eq!(grid.cells().len(), 81);
    assert_eq!(driver.turn(), Stone::White);
}

#[test]
fn sync_shows_every_stone_in_its_owners_colour() {
    let mut grid = BoardGrid::new(5);
    let mut board = Board::new(5);
    board.set_stone(0, 0, Some(Stone::White));
    board.set_stone(2, 3, Some(Stone::Black));
    board.set_stone(4, 4, Some(Stone::White));
    update_in_game(&mut grid, &board);
    for cell in grid.cells() {
        match board.get_stone(cell.pos.x, cell.pos.y) {
            Some(owner) => {
                assert!(cell.visible);
                assert_eq!(cell.material, owner);
            }
            None => assert!(!cell.visible),
        }
    }
    assert_eq!(visible_cells(&grid).len(), 3);
    assert_eq!(grid.cells()[13], BoardCell { pos: StonePos { x: 2, y: 3 }, material: Stone::Black, visible: true });
    assert_eq!(grid.cells()[0].material, Stone::White);
}

#[test]
fn sync_is_idempotent() {
    let mut grid = BoardGrid::new(9);
    let mut board = Board::new(9);
    board.set_stone(3, 3, Some(Stone::White));
    board.set_stone(5, 1, Some(Stone::Black));
    update_in_game(&mut grid, &board);
    let once = grid.cells().clone();
    update_in_game(&mut grid, &board);
    assert_eq!(grid.cells(), &once);
}

#[test]
fn captured_stone_is_hidden_and_keeps_its_material() {
    let mut grid = BoardGrid::new(9);
    let mut board = Board::new(9);
    board.set_stone(4, 4, Some(Stone::White));
    update_in_game(&mut grid, &board);
    assert_eq!(grid.cells()[40], BoardCell { pos: StonePos { x: 4, y: 4 }, material: Stone::White, visible: true });
    board.set_stone(4, 4, None);
    update_in_game(&mut grid, &board);
    assert_eq!(grid.cells()[40], BoardCell { pos: StonePos { x: 4, y: 4 }, material: Stone::White, visible: false });
    assert!(visible_cells(&grid).is_empty());
}

#[test]
fn reset_board_hides_every_cell_on_the_next_sync() {
    let mut grid = BoardGrid::new(9);
    let mut board = Board::new(9);
    board.set_stone(1, 2, Some(Stone::Black));
    board.set_stone(2, 1, Some(Stone::White));
    update_in_game(&mut grid, &board);
    assert_eq!(visible_cells(&grid).len(), 2);
    update_in_game(&mut grid, &Board::new(9));
    assert!(visible_cells(&grid).is_empty());
    assert_eq!(grid.cells().len(), 81);
}

#[test]
fn board_snapshot_reads_what_was_recorded() {
    let mut board = Board::new(9);
    assert_eq!(board.size(), 9);
    assert_eq!(board.get_stone(3, 4), None);
    assert!(board.set_stone(3, 4, Some(Stone::Black)));
    assert_eq!(board.get_stone(3, 4), Some(Stone::Black));
    assert_eq!(board.get_stone(4, 3), None);
    assert!(board.set_stone(3, 4, Some(Stone::White)));
    assert_eq!(board.get_stone(3, 4), Some(Stone::White));
    assert!(board.set_stone(8, 8, Some(Stone::Black)));
    assert_eq!(board.get_stone(8, 8), Some(Stone::Black));
}

#[test]
fn board_snapshot_has_nothing_outside_the_board() {
    let mut board = Board::new(9);
    assert!(!board.set_stone(9, 0, Some(Stone::Black)));
    assert!(!board.set_stone(0, 9, Some(Stone::Black)));
    assert!(!board.set_stone(255, 255, Some(Stone::White)));
    assert_eq!(board.get_stone(9, 0), None);
    assert_eq!(board.get_stone(0, 9), None);
    for x in 0..9 {
        for y in 0..9 {
            assert_eq!(board.get_stone(x, y), None);
        }
    }
    let mut empty = Board::new(0);
    assert!(!empty.set_stone(0, 0, Some(Stone::Black)));
    assert_eq!(empty.get_stone(0, 0), None);
}

#[test]
fn star_points_are_odd_multiples_of_three() {
    assert!(is_star(3, 3, 9));
    assert!(is_star(3, 9, 19));
    assert!(is_star(15, 15, 19));
    assert!(!is_star(0, 0, 9));
    assert!(!is_star(6, 6, 9));
    assert!(!is_star(3, 6, 19));
    assert!(!is_star(3, 4, 9));
    assert!(!is_star(9, 9, 9));
    assert!(!is_star(3, 3, 3));
    assert!(is_star(9, 3, 10));
}

#[test]
fn star_points_of_common_boards() {
    assert_eq!(star_points(9), vec![StonePos { x: 3, y: 3 }]);
    assert_eq!(
        star_points(13),
        vec![
            StonePos { x: 3, y: 3 },
            StonePos { x: 3, y: 9 },
            StonePos { x: 9, y: 3 },
            StonePos { x: 9, y: 9 }
        ]
    );
    let nineteen = star_points(19);
    assert_eq!(nineteen.len(), 9);
    assert_eq!(nineteen[0], StonePos { x: 3, y: 3 });
    assert_eq!(nineteen[4], StonePos { x: 9, y: 9 });
    assert_eq!(nineteen[8], StonePos { x: 15, y: 15 });
    assert!(star_points(3).is_empty());
    assert!(star_points(0).is_empty());
    assert_eq!(setup_in_game_ui(13).star_points, star_points(13));
}

#[test]
fn cell_is_found_by_its_coordinate() {
    let mut grid = BoardGrid::new(9);
    let mut board = Board::new(9);
    board.set_stone(7, 2, Some(Stone::White));
    update_in_game(&mut grid, &board);
    assert_eq!(
        grid.cell_at(7, 2),
        Some(BoardCell { pos: StonePos { x: 7, y: 2 }, material: Stone::White, visible: true })
    );
    assert_eq!(
        grid.cell_at(2, 7),
        Some(BoardCell { pos: StonePos { x: 2, y: 7 }, material: Stone::Black, visible: false })
    );
    assert_eq!(grid.cell_at(9, 0), None);
    assert_eq!(grid.cell_at(0, 9), None);
    assert_eq!(BoardGrid::new(0).cell_at(0, 0), None);
}

#[test]
fn board_plan_is_tied_to_the_game_screen() {
    for size in [0u8, 9, 19] {
        assert_eq!(setup_in_game_ui(size).scope, Scope::Screen(ScreenState::InGame));
    }
    assert_eq!(setup_in_game_ui(9).scope, SetupHandler::InGameUi.scope());
}
