//! Symmetries of one generation: exchanging the colors, and mirroring or
//! transposing the board, commute with evolution and preserve its statistics.
use vstd::prelude::*;

use crate::game::{Cell, EvolutionStats, Player};
use crate::rules::{
    born_prefix, born_step, died_prefix, died_step, evolution_stats, evolve_board, evolved_cell,
    lemma_index_coordinates, lemma_index_in_bounds, lemma_point_at, model_wf, neighbor_count,
    next_cell, occupant, stone_of, GameModel,
};

verus! {

/// Black and white exchanged.
pub open spec fn swap_color(cell: Cell) -> Cell {
    match cell {
        Cell::Empty => Cell::Empty,
        Cell::Black => Cell::White,
        Cell::White => Cell::Black,
    }
}

/// The board with the colors of all stones exchanged.
pub open spec fn swap_colors(board: Seq<Cell>) -> Seq<Cell> {
    board.map_values(|cell: Cell| swap_color(cell))
}

proof fn lemma_occupant_swap(board: Seq<Cell>, size: int, x: int, y: int, player: Player)
    requires
        size >= 0,
        board.len() == size * size,
    ensures
        stone_of(occupant(swap_colors(board), size, x, y), player) == stone_of(
            occupant(board, size, x, y),
            player.other(),
        ),
{
    if 0 <= x < size && 0 <= y < size {
        lemma_index_in_bounds(size, x, y);
    }
}

proof fn lemma_neighbor_count_swap(board: Seq<Cell>, size: int, x: int, y: int, player: Player)
    requires
        size >= 0,
        board.len() == size * size,
    ensures
        neighbor_count(swap_colors(board), size, x, y, player) == neighbor_count(
            board,
            size,
            x,
            y,
            player.other(),
        ),
{
    lemma_occupant_swap(board, size, x - 1, y - 1, player);
    lemma_occupant_swap(board, size, x, y - 1, player);
    lemma_occupant_swap(board, size, x + 1, y - 1, player);
    lemma_occupant_swap(board, size, x - 1, y, player);
    lemma_occupant_swap(board, size, x + 1, y, player);
    lemma_occupant_swap(board, size, x - 1, y + 1, player);
    lemma_occupant_swap(board, size, x, y + 1, player);
    lemma_occupant_swap(board, size, x + 1, y + 1, player);
}

proof fn lemma_next_cell_swap(cell: Cell, black: int, white: int)
    ensures
        next_cell(swap_color(cell), white, black) == swap_color(next_cell(cell, black, white)),
{
}

proof fn lemma_evolved_cell_swap(board: Seq<Cell>, size: int, i: int)
    requires
        size >= 0,
        board.len() == size * size,
        0 <= i < board.len(),
    ensures
        evolved_cell(swap_colors(board), size, i) == swap_color(evolved_cell(board, size, i)),
{
    let x = i % size;
    let y = i / size;
    lemma_neighbor_count_swap(board, size, x, y, Player::Black);
    lemma_neighbor_count_swap(board, size, x, y, Player::White);
    let black = neighbor_count(board, size, x, y, Player::Black);
    let white = neighbor_count(board, size, x, y, Player::White);
    assert(swap_colors(board)[i] == swap_color(board[i]));
    lemma_next_cell_swap(board[i], black, white);
}

/// The statistics with the roles of black and white exchanged.
pub open spec fn swap_stats(stats: EvolutionStats) -> EvolutionStats {
    EvolutionStats {
        born_black: stats.born_white,
        born_white: stats.born_black,
        died_black: stats.died_white,
        died_white: stats.died_black,
    }
}

proof fn lemma_changes_swap(before: Seq<Cell>, after: Seq<Cell>, n: int)
    requires
        n <= before.len(),
        n <= after.len(),
    ensures
        born_prefix(swap_colors(before), swap_colors(after), Cell::Black, n) == born_prefix(
            before,
            after,
            Cell::White,
            n,
        ),
        born_prefix(swap_colors(before), swap_colors(after), Cell::White, n) == born_prefix(
            before,
            after,
            Cell::Black,
            n,
        ),
        died_prefix(swap_colors(before), swap_colors(after), Cell::Black, n) == died_prefix(
            before,
            after,
            Cell::White,
            n,
        ),
        died_prefix(swap_colors(before), swap_colors(after), Cell::White, n) == died_prefix(
            before,
            after,
            Cell::Black,
            n,
        ),
    decreases n,
{
    if n > 0 {
        lemma_changes_swap(before, after, n - 1);
        assert(swap_colors(before)[n - 1] == swap_color(before[n - 1]));
        assert(swap_colors(after)[n - 1] == swap_color(after[n - 1]));
    }
}

/// The rules favour neither color: exchanging the colors of all stones and
/// then evolving gives the same board as evolving and then exchanging, and the
/// statistics of the two generations are those of each other with black and
/// white exchanged.
pub proof fn law_evolution_is_color_symmetric(m: GameModel)
    requires
        model_wf(m),
    ensures
        evolve_board(swap_colors(m.board), m.size as int) == swap_colors(
            evolve_board(m.board, m.size as int),
        ),
        evolution_stats(
            swap_colors(m.board),
            evolve_board(swap_colors(m.board), m.size as int),
        ) == swap_stats(evolution_stats(m.board, evolve_board(m.board, m.size as int))),
{
    let size = m.size as int;
    let board = m.board;
    assert forall|i: int| 0 <= i < board.len() implies #[trigger] evolved_cell(
        swap_colors(board),
        size,
        i,
    ) == swap_color(evolved_cell(board, size, i)) by {
        lemma_evolved_cell_swap(board, size, i);
    }
    assert(evolve_board(swap_colors(board), size) =~= swap_colors(evolve_board(board, size)));
    lemma_changes_swap(board, evolve_board(board, size), board.len() as int);
}


/// A symmetry of the square board.
pub enum Reflection {
    /// Left and right exchanged.
    MirrorColumns,
    /// Top and bottom exchanged.
    MirrorRows,
    /// Rows and columns exchanged.
    Transpose,
}

/// The column that column `x`, row `y` is taken to on a board of side `size`.
pub open spec fn reflect_x(reflection: Reflection, size: int, x: int, y: int) -> int {
    match reflection {
        Reflection::MirrorColumns => size - 1 - x,
        Reflection::MirrorRows => x,
        Reflection::Transpose => y,
    }
}

/// The row that column `x`, row `y` is taken to on a board of side `size`.
pub open spec fn reflect_y(reflection: Reflection, size: int, x: int, y: int) -> int {
    match reflection {
        Reflection::MirrorColumns => y,
        Reflection::MirrorRows => size - 1 - y,
        Reflection::Transpose => x,
    }
}

/// The board position that position `index` is taken to.
pub open spec fn reflect_index(reflection: Reflection, size: int, index: int) -> int {
    let x = index % size;
    let y = index / size;
    reflect_y(reflection, size, x, y) * size + reflect_x(reflection, size, x, y)
}

/// The board seen through the symmetry.
pub open spec fn reflect_board(reflection: Reflection, board: Seq<Cell>, size: int) -> Seq<Cell> {
    Seq::new(board.len(), |index: int| board[reflect_index(reflection, size, index)])
}

/// The sum of `f` over `0..n`.
pub open spec fn sum_of(f: spec_fn(int) -> int, n: int) -> int
    decreases n,
{
    if n <= 0 {
        0
    } else {
        sum_of(f, n - 1) + f(n - 1)
    }
}

proof fn lemma_sum_of_agree(a: spec_fn(int) -> int, b: spec_fn(int) -> int, n: int)
    requires
        forall|i: int| 0 <= i < n ==> #[trigger] a(i) == b(i),
    ensures
        sum_of(a, n) == sum_of(b, n),
    decreases n,
{
    if n > 0 {
        lemma_sum_of_agree(a, b, n - 1);
    }
}

proof fn lemma_sum_of_one_difference(a: spec_fn(int) -> int, b: spec_fn(int) -> int, n: int, k: int)
    requires
        0 <= k < n,
        forall|i: int| 0 <= i < n && i != k ==> #[trigger] a(i) == b(i),
    ensures
        sum_of(a, n) - sum_of(b, n) == a(k) - b(k),
    decreases n,
{
    if n - 1 == k {
        lemma_sum_of_agree(a, b, n - 1);
    } else {
        lemma_sum_of_one_difference(a, b, n - 1, k);
    }
}

/// Re-ordering the terms by a self-inverse map of `0..n` keeps the sum.
proof fn lemma_sum_of_involution(f: spec_fn(int) -> int, sigma: spec_fn(int) -> int, n: int)
    requires
        forall|i: int| 0 <= i < n ==> 0 <= #[trigger] sigma(i) < n,
        forall|i: int| 0 <= i < n ==> #[trigger] sigma(sigma(i)) == i,
    ensures
        sum_of(|i: int| f(sigma(i)), n) == sum_of(f, n),
    decreases n,
{
    if n > 0 {
        let g = |i: int| f(sigma(i));
        let j = sigma(n - 1);
        if j == n - 1 {
            assert forall|i: int| 0 <= i < n - 1 implies 0 <= #[trigger] sigma(i) < n - 1 by {
                if sigma(i) == n - 1 {
                    assert(sigma(sigma(i)) == sigma(n - 1));
                }
            }
            lemma_sum_of_involution(f, sigma, n - 1);
        } else {
            let sigma2 = |i: int|
                if i == j {
                    j
                } else {
                    sigma(i)
                };
            assert(sigma(j) == n - 1);
            assert forall|i: int| 0 <= i < n - 1 implies 0 <= #[trigger] sigma2(i) < n - 1 by {
                if i != j {
                    if sigma(i) == n - 1 {
                        assert(sigma(sigma(i)) == sigma(n - 1));
                    }
                }
            }
            assert forall|i: int| 0 <= i < n - 1 implies #[trigger] sigma2(sigma2(i)) == i by {
                if i != j {
                    if sigma(i) == j {
                        assert(sigma(sigma(i)) == sigma(j));
                    }
                    if sigma(i) == n - 1 {
                        assert(sigma(sigma(i)) == sigma(n - 1));
                    }
                }
            }
            lemma_sum_of_involution(f, sigma2, n - 1);
            let g2 = |i: int| f(sigma2(i));
            assert forall|i: int| 0 <= i < n - 1 && i != j implies #[trigger] g(i) == g2(i) by {}
            lemma_sum_of_one_difference(g, g2, n - 1, j);
        }
    }
}

proof fn lemma_born_prefix_sum(before: Seq<Cell>, after: Seq<Cell>, cell: Cell, n: int)
    ensures
        born_prefix(before, after, cell, n) == sum_of(
            |i: int| born_step(before[i], after[i], cell) as int,
            n,
        ),
        died_prefix(before, after, cell, n) == sum_of(
            |i: int| died_step(before[i], after[i], cell) as int,
            n,
        ),
    decreases n,
{
    if n > 0 {
        lemma_born_prefix_sum(before, after, cell, n - 1);
    }
}

proof fn lemma_reflect_point(reflection: Reflection, size: int, x: int, y: int)
    requires
        0 <= x < size,
        0 <= y < size,
    ensures
        0 <= reflect_x(reflection, size, x, y) < size,
        0 <= reflect_y(reflection, size, x, y) < size,
        reflect_x(
            reflection,
            size,
            reflect_x(reflection, size, x, y),
            reflect_y(reflection, size, x, y),
        ) == x,
        reflect_y(
            reflection,
            size,
            reflect_x(reflection, size, x, y),
            reflect_y(reflection, size, x, y),
        ) == y,
{
}

proof fn lemma_reflect_index(reflection: Reflection, size: int, index: int)
    requires
        size >= 0,
        0 <= index < size * size,
    ensures
        0 <= reflect_index(reflection, size, index) < size * size,
        reflect_index(reflection, size, reflect_index(reflection, size, index)) == index,
        reflect_index(reflection, size, index) % size == reflect_x(
            reflection,
            size,
            index % size,
            index / size,
        ),
        reflect_index(reflection, size, index) / size == reflect_y(
            reflection,
            size,
            index % size,
            index / size,
        ),
{
    lemma_point_at(size, index);
    let x = index % size;
    let y = index / size;
    lemma_reflect_point(reflection, size, x, y);
    let rx = reflect_x(reflection, size, x, y);
    let ry = reflect_y(reflection, size, x, y);
    lemma_index_in_bounds(size, rx, ry);
    lemma_index_coordinates(size, rx, ry);
}

/// What the reflected board holds at (x, y) is what the board holds at the
/// reflected point; both are off the board together.
proof fn lemma_occupant_reflect(
    reflection: Reflection,
    board: Seq<Cell>,
    size: int,
    x: int,
    y: int,
)
    requires
        size >= 0,
        board.len() == size * size,
    ensures
        occupant(reflect_board(reflection, board, size), size, x, y) == occupant(
            board,
            size,
            reflect_x(reflection, size, x, y),
            reflect_y(reflection, size, x, y),
        ),
{
    if 0 <= x < size && 0 <= y < size {
        lemma_index_in_bounds(size, x, y);
        lemma_index_coordinates(size, x, y);
        lemma_reflect_point(reflection, size, x, y);
    }
}

proof fn lemma_neighbor_count_reflect(
    reflection: Reflection,
    board: Seq<Cell>,
    size: int,
    x: int,
    y: int,
    player: Player,
)
    requires
        size >= 0,
        board.len() == size * size,
    ensures
        neighbor_count(reflect_board(reflection, board, size), size, x, y, player)
            == neighbor_count(
            board,
            size,
            reflect_x(reflection, size, x, y),
            reflect_y(reflection, size, x, y),
            player,
        ),
{
    lemma_occupant_reflect(reflection, board, size, x - 1, y - 1);
    lemma_occupant_reflect(reflection, board, size, x, y - 1);
    lemma_occupant_reflect(reflection, board, size, x + 1, y - 1);
    lemma_occupant_reflect(reflection, board, size, x - 1, y);
    lemma_occupant_reflect(reflection, board, size, x + 1, y);
    lemma_occupant_reflect(reflection, board, size, x - 1, y + 1);
    lemma_occupant_reflect(reflection, board, size, x, y + 1);
    lemma_occupant_reflect(reflection, board, size, x + 1, y + 1);
}

proof fn lemma_evolved_cell_reflect(reflection: Reflection, board: Seq<Cell>, size: int, i: int)
    requires
        size >= 0,
        board.len() == size * size,
        0 <= i < board.len(),
    ensures
        evolved_cell(reflect_board(reflection, board, size), size, i) == evolved_cell(
            board,
            size,
            reflect_index(reflection, size, i),
        ),
{
    lemma_reflect_index(reflection, size, i);
    lemma_neighbor_count_reflect(reflection, board, size, i % size, i / size, Player::Black);
    lemma_neighbor_count_reflect(reflection, board, size, i % size, i / size, Player::White);
}

/// One generation commutes with mirroring the board left to right, top to
/// bottom, or across its diagonal, and the mirrored generation has the same
/// statistics.
pub proof fn law_evolution_commutes_with_reflection(reflection: Reflection, m: GameModel)
    requires
        model_wf(m),
    ensures
        evolve_board(reflect_board(reflection, m.board, m.size as int), m.size as int)
            == reflect_board(reflection, evolve_board(m.board, m.size as int), m.size as int),
        evolution_stats(
            reflect_board(reflection, m.board, m.size as int),
            evolve_board(reflect_board(reflection, m.board, m.size as int), m.size as int),
        ) == evolution_stats(m.board, evolve_board(m.board, m.size as int)),
{
    let size = m.size as int;
    let board = m.board;
    let n = board.len() as int;
    let after = evolve_board(board, size);
    let mirrored = reflect_board(reflection, board, size);
    assert forall|i: int| 0 <= i < n implies #[trigger] evolved_cell(mirrored, size, i)
        == evolved_cell(board, size, reflect_index(reflection, size, i)) by {
        lemma_evolved_cell_reflect(reflection, board, size, i);
    }
    assert forall|i: int| 0 <= i < n implies 0 <= #[trigger] reflect_index(reflection, size, i) < n
        && reflect_index(reflection, size, reflect_index(reflection, size, i)) == i by {
        lemma_reflect_index(reflection, size, i);
    }
    assert(evolve_board(mirrored, size) =~= reflect_board(reflection, after, size));
    let mirrored_after = reflect_board(reflection, after, size);
    let sigma = |i: int| reflect_index(reflection, size, i);
    assert forall|i: int| 0 <= i < n implies 0 <= #[trigger] sigma(i) < n by {}
    assert forall|i: int| 0 <= i < n implies #[trigger] sigma(sigma(i)) == i by {}
    assert forall|c: Cell|
        c == Cell::Black || c == Cell::White implies born_prefix(mirrored, mirrored_after, c, n)
        == born_prefix(board, after, c, n) && died_prefix(mirrored, mirrored_after, c, n)
        == died_prefix(board, after, c, n) by {
        let born = |i: int| born_step(board[i], after[i], c) as int;
        let died = |i: int| died_step(board[i], after[i], c) as int;
        lemma_born_prefix_sum(mirrored, mirrored_after, c, n);
        lemma_born_prefix_sum(board, after, c, n);
        lemma_sum_of_involution(born, sigma, n);
        lemma_sum_of_involution(died, sigma, n);
        lemma_sum_of_agree(
            |i: int| born_step(mirrored[i], mirrored_after[i], c) as int,
            |i: int| born(sigma(i)),
            n,
        );
        lemma_sum_of_agree(
            |i: int| died_step(mirrored[i], mirrored_after[i], c) as int,
            |i: int| died(sigma(i)),
            n,
        );
    }
}

} // verus!
