//! Human-readable messages, with numbers written in decimal.
use vstd::prelude::*;

use crate::game::{ActionError, GameError, Point, MAX_BOARD_SIZE, MIN_BOARD_SIZE};

verus! {

/// The character of decimal digit `d`.
pub open spec fn digit_char(d: nat) -> char {
    if d == 0 {
        '0'
    } else if d == 1 {
        '1'
    } else if d == 2 {
        '2'
    } else if d == 3 {
        '3'
    } else if d == 4 {
        '4'
    } else if d == 5 {
        '5'
    } else if d == 6 {
        '6'
    } else if d == 7 {
        '7'
    } else if d == 8 {
        '8'
    } else {
        '9'
    }
}

/// The decimal notation of `n`: most significant digit first, no leading zeros.
pub open spec fn decimal(n: nat) -> Seq<char>
    decreases n,
{
    if n < 10 {
        seq![digit_char(n)]
    } else {
        decimal(n / 10) + seq![digit_char(n % 10)]
    }
}

/// The value of a decimal digit character.
pub open spec fn digit_value(c: char) -> int {
    c as int - '0' as int
}

/// The number written by a sequence of decimal digits.
pub open spec fn decimal_value(digits: Seq<char>) -> int
    decreases digits.len(),
{
    if digits.len() == 0 {
        0
    } else {
        decimal_value(digits.drop_last()) * 10 + digit_value(digits.last())
    }
}

/// Decimal notation is right: it consists of digits only, has no leading
/// zero except for zero itself, and reads back as the number it writes.
pub proof fn law_decimal_reads_back(n: nat)
    ensures
        decimal(n).len() >= 1,
        forall|i: int| 0 <= i < decimal(n).len() ==> '0' <= #[trigger] decimal(n)[i] <= '9',
        n > 0 ==> decimal(n)[0] != '0',
        n == 0 ==> decimal(n) == seq!['0'],
        decimal_value(decimal(n)) == n,
    decreases n,
{
    if n >= 10 {
        law_decimal_reads_back(n / 10);
        let head = decimal((n / 10) as nat);
        let digits = decimal(n);
        assert(digits == head + seq![digit_char(n % 10)]);
        assert(digits.drop_last() =~= head);
        assert(digits[0] == head[0]);
        assert forall|i: int| 0 <= i < digits.len() implies '0' <= #[trigger] digits[i] <= '9' by {
            if i < head.len() {
                assert(digits[i] == head[i]);
            }
        }
        assert(n == (n / 10) * 10 + n % 10);
    } else {
        assert(decimal_value(decimal(n)) == decimal_value(decimal(n).drop_last()) * 10 + digit_value(
            decimal(n).last(),
        ));
        assert(decimal(n).drop_last() =~= Seq::<char>::empty());
    }
}

fn digit_str(d: u64) -> (text: &'static str)
    requires
        d < 10,
    ensures
        text@ == seq![digit_char(d as nat)],
{
    if d == 0 {
        proof {
            reveal_strlit("0");
        }
        "0"
    } else if d == 1 {
        proof {
            reveal_strlit("1");
        }
        "1"
    } else if d == 2 {
        proof {
            reveal_strlit("2");
        }
        "2"
    } else if d == 3 {
        proof {
            reveal_strlit("3");
        }
        "3"
    } else if d == 4 {
        proof {
            reveal_strlit("4");
        }
        "4"
    } else if d == 5 {
        proof {
            reveal_strlit("5");
        }
        "5"
    } else if d == 6 {
        proof {
            reveal_strlit("6");
        }
        "6"
    } else if d == 7 {
        proof {
            reveal_strlit("7");
        }
        "7"
    } else if d == 8 {
        proof {
            reveal_strlit("8");
        }
        "8"
    } else {
        proof {
            reveal_strlit("9");
        }
        "9"
    }
}

/// Appends the decimal notation of `n` to `text`.
pub fn push_decimal(text: &mut String, n: u64)
    ensures
        final(text)@ == old(text)@ + decimal(n as nat),
    decreases n,
{
    if n >= 10 {
        push_decimal(text, n / 10);
    }
    text.append(digit_str(n % 10));
    assert(text@ =~= old(text)@ + decimal(n as nat));
}


/// "坐标 (x, y) " followed by `tail`, with one-based coordinates.
pub open spec fn coordinate_message(point: Point, tail: Seq<char>) -> Seq<char> {
    "坐标 ("@ + decimal((point.x + 1) as nat) + ", "@ + decimal((point.y + 1) as nat) + ") "@ + tail
}

/// The message that explains a refused board size.
pub open spec fn game_error_message(error: GameError) -> Seq<char> {
    match error {
        GameError::InvalidSize(size) => "棋盘尺寸必须是 "@ + decimal(MIN_BOARD_SIZE as nat) + " 到 "@
            + decimal(MAX_BOARD_SIZE as nat) + " 之间的奇数，收到 "@ + decimal(size as nat),
    }
}

/// The coordinates an error reports can be written one-based in a byte.
pub open spec fn action_error_printable(error: ActionError) -> bool {
    match error {
        ActionError::PointOutOfBounds(point) => point.x < u8::MAX && point.y < u8::MAX,
        ActionError::PointOccupied(point) => point.x < u8::MAX && point.y < u8::MAX,
        ActionError::OutsidePlayerRegion(point) => point.x < u8::MAX && point.y < u8::MAX,
        _ => true,
    }
}

/// The message that explains a refused action.
pub open spec fn action_error_message(error: ActionError) -> Seq<char> {
    match error {
        ActionError::GameFinished => "对局已经结束"@,
        ActionError::PassNotAllowed => "行动阶段必须先在空格落子"@,
        ActionError::PointOutOfBounds(point) => coordinate_message(point, "超出棋盘"@),
        ActionError::PointOccupied(point) => coordinate_message(point, "已有棋子"@),
        ActionError::WrongLayoutColor => "布局阶段只能放置当前玩家自己的颜色"@,
        ActionError::OutsidePlayerRegion(point) => coordinate_message(point, "不在当前玩家的布局区域"@),
    }
}

fn coordinate_text(point: Point, tail: &str) -> (text: String)
    requires
        point.x < u8::MAX,
        point.y < u8::MAX,
    ensures
        text@ == coordinate_message(point, tail@),
{
    let mut text = String::from_str("坐标 (");
    push_decimal(&mut text, (point.x + 1) as u64);
    text.append(", ");
    push_decimal(&mut text, (point.y + 1) as u64);
    text.append(") ");
    text.append(tail);
    text
}

impl GameError {
    /// The explanation shown to the player.
    pub fn message(&self) -> (text: String)
        ensures
            text@ == game_error_message(*self),
    {
        match self {
            GameError::InvalidSize(size) => {
                let mut text = String::from_str("棋盘尺寸必须是 ");
                push_decimal(&mut text, MIN_BOARD_SIZE as u64);
                text.append(" 到 ");
                push_decimal(&mut text, MAX_BOARD_SIZE as u64);
                text.append(" 之间的奇数，收到 ");
                push_decimal(&mut text, *size as u64);
                text
            },
        }
    }
}

impl ActionError {
    /// The explanation shown to the player.
    pub fn message(&self) -> (text: String)
        requires
            action_error_printable(*self),
        ensures
            text@ == action_error_message(*self),
    {
        match self {
            ActionError::GameFinished => String::from_str("对局已经结束"),
            ActionError::PassNotAllowed => String::from_str("行动阶段必须先在空格落子"),
            ActionError::PointOutOfBounds(point) => coordinate_text(*point, "超出棋盘"),
            ActionError::PointOccupied(point) => coordinate_text(*point, "已有棋子"),
            ActionError::WrongLayoutColor => String::from_str("布局阶段只能放置当前玩家自己的颜色"),
            ActionError::OutsidePlayerRegion(point) => coordinate_text(*point, "不在当前玩家的布局区域"),
        }
    }
}

} // verus!
