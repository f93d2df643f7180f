//! Text for the terminal, in colour.
//!
//! What is written for each value is laid down as a sequence of characters;
//! the functions that build the strings are proved to build exactly those.
//! The colours come from `ez_colorize`.

use vstd::prelude::*;
use vstd::string::StringExecFns;
use crate::character::{Bullet, Character, CharacterInfo, Gun, Health};
use crate::direction::Direction;
use crate::game::{GameInfo, GameState};
use crate::grid::{Cell, Grid, GridView};
use crate::player::PlayerInfo;
use crate::pos::Pos;
use crate::scheduler::Notice;
use crate::state::StateView;

verus! {

/// The escape sequence that ends a colour.
pub open spec fn reset_code() -> Seq<char> {
    seq!['\x1B', '[', '0', 'm']
}

/// The escape sequence that starts red.
pub open spec fn red_code() -> Seq<char> {
    seq!['\x1B', '[', '3', '1', 'm']
}

/// The escape sequence that starts green.
pub open spec fn green_code() -> Seq<char> {
    seq!['\x1B', '[', '3', '2', 'm']
}

/// `text` in green.
pub open spec fn in_green(text: Seq<char>) -> Seq<char> {
    green_code() + text + reset_code()
}

/// `text` in red.
pub open spec fn in_red(text: Seq<char>) -> Seq<char> {
    red_code() + text + reset_code()
}

/// Calls `ez_colorize::ColorizeDisplay::green` on a string slice. That
/// function writes the escape sequence for green, then the value, then the
/// escape sequence that ends a colour; the contract says exactly that.
#[verifier::external_body]
fn green(text: &str) -> (painted: String)
    ensures
        painted@ == in_green(text@),
{
    ez_colorize::ColorizeDisplay::green(&text)
}

/// Calls `ez_colorize::ColorizeDisplay::red` on a string slice. That function
/// writes the escape sequence for red, then the value, then the escape
/// sequence that ends a colour; the contract says exactly that.
#[verifier::external_body]
fn red(text: &str) -> (painted: String)
    ensures
        painted@ == in_red(text@),
{
    ez_colorize::ColorizeDisplay::red(&text)
}

/// The character of a decimal digit.
pub open spec fn digit(value: nat) -> char {
    if value == 0 {
        '0'
    } else if value == 1 {
        '1'
    } else if value == 2 {
        '2'
    } else if value == 3 {
        '3'
    } else if value == 4 {
        '4'
    } else if value == 5 {
        '5'
    } else if value == 6 {
        '6'
    } else if value == 7 {
        '7'
    } else if value == 8 {
        '8'
    } else {
        '9'
    }
}

/// `value` in decimal digits, without leading zeros.
pub open spec fn decimal(value: nat) -> Seq<char>
    decreases value,
{
    if value < 10 {
        seq![digit(value)]
    } else {
        decimal(value / 10).push(digit(value % 10))
    }
}

/// The text of one decimal digit.
fn digit_text(value: u8) -> (text: &'static str)
    requires
        value < 10,
    ensures
        text@ == seq![digit(value as nat)],
{
    proof {
        reveal_strlit("0");
        reveal_strlit("1");
        reveal_strlit("2");
        reveal_strlit("3");
        reveal_strlit("4");
        reveal_strlit("5");
        reveal_strlit("6");
        reveal_strlit("7");
        reveal_strlit("8");
        reveal_strlit("9");
    }
    let text = if value == 0 {
        "0"
    } else if value == 1 {
        "1"
    } else if value == 2 {
        "2"
    } else if value == 3 {
        "3"
    } else if value == 4 {
        "4"
    } else if value == 5 {
        "5"
    } else if value == 6 {
        "6"
    } else if value == 7 {
        "7"
    } else if value == 8 {
        "8"
    } else {
        "9"
    };
    assert(text@ =~= seq![digit(value as nat)]);
    text
}

/// `value` in decimal digits.
pub fn to_decimal(value: u8) -> (text: String)
    ensures
        text@ == decimal(value as nat),
    decreases value,
{
    if value < 10 {
        String::from_str(digit_text(value))
    } else {
        let mut text = to_decimal(value / 10);
        text.append(digit_text(value % 10));
        text
    }
}

/// `value` in decimal digits, in green.
fn green_number(value: u8) -> (text: String)
    ensures
        text@ == in_green(decimal(value as nat)),
{
    green(to_decimal(value).as_str())
}

/// `value` in decimal digits, in red.
fn red_number(value: u8) -> (text: String)
    ensures
        text@ == in_red(decimal(value as nat)),
{
    red(to_decimal(value).as_str())
}

/// What is written for a position.
pub open spec fn pos_text(pos: Pos) -> Seq<char> {
    "[Pos: ("@ + in_green(decimal(pos.x as nat)) + ", "@ + in_green(decimal(pos.y as nat)) + ")]"@
}

/// What is written for a direction.
pub open spec fn direction_text(direction: Direction) -> Seq<char> {
    match direction {
        Direction::Bottom => in_green("Bot"@),
        Direction::Top => in_green("Top"@),
        Direction::Left => in_green("Left"@),
        Direction::Right => in_green("Right"@),
        Direction::Nowhere => in_red("None"@),
    }
}

/// What is written for health: the points left, in red, of the most there
/// can be, in green.
pub open spec fn health_text(health: Health) -> Seq<char> {
    "[Hlth: "@ + in_red(decimal(health.current as nat)) + "/"@ + in_green(
        decimal(health.max as nat),
    ) + "]"@
}

/// What is written for a projectile. One that heads nowhere is written
/// without direction and place.
pub open spec fn bullet_text(bullet: Bullet) -> Seq<char> {
    if bullet.direction == Direction::Nowhere {
        "[Bullet| dmg: "@ + in_green(decimal(bullet.damage as nat)) + ", range: "@ + in_green(
            decimal(bullet.range as nat),
        ) + "]"@
    } else {
        "[Bullet| dmg: "@ + in_green(decimal(bullet.damage as nat)) + ", direct: "@ + in_green(
            direction_text(bullet.direction),
        ) + ", range: "@ + in_green(decimal(bullet.range as nat)) + ", pos: "@ + pos_text(
            bullet.pos,
        ) + "]"@
    }
}

/// What is written for a weapon.
pub open spec fn gun_text(gun: Gun) -> Seq<char> {
    "[Gun| attack await: "@ + in_red(decimal(gun.reload_awaiting as nat)) + "/"@ + in_green(
        decimal(gun.reload_time as nat),
    ) + ", "@ + bullet_text(gun.bullet) + "]"@
}

/// What is written for a character.
pub open spec fn character_text(character: Character) -> Seq<char> {
    "["@ + health_text(character.health) + ", "@ + gun_text(character.gun) + ", "@ + pos_text(
        character.pos,
    ) + ", [Speed: "@ + in_green(decimal(character.speed as nat)) + "]]"@
}

/// What is written for a cell of the field.
pub open spec fn cell_text(cell: Cell) -> Seq<char> {
    match cell {
        Cell::Player => in_green("Player"@),
        Cell::Bullet => in_red("Bullet"@),
        Cell::Bushes => "Bushes"@,
        Cell::Empty => "Empty"@,
        Cell::Wall => "Wall"@,
        Cell::Bot => "Bot"@,
    }
}

/// What is written for the first `upto` cells of the row `x` of a field:
/// each cell, followed by a blank.
pub open spec fn row_text(grid: GridView, x: int, upto: nat) -> Seq<char>
    decreases upto,
{
    if upto == 0 {
        Seq::empty()
    } else {
        row_text(grid, x, (upto - 1) as nat) + cell_text(grid.cells[x * grid.size + (upto - 1)])
            + " "@
    }
}

/// What is written for the first `upto` rows of a field: each row, followed
/// by a line break.
pub open spec fn rows_text(grid: GridView, upto: nat) -> Seq<char>
    decreases upto,
{
    if upto == 0 {
        Seq::empty()
    } else {
        rows_text(grid, (upto - 1) as nat) + row_text(grid, upto - 1, grid.size) + "\n"@
    }
}

/// What is written for a field.
pub open spec fn grid_text(grid: GridView) -> Seq<char> {
    rows_text(grid, grid.size)
}

/// What is written for the first `upto` of `ids`: the numbers, with a comma
/// and a blank between each two.
pub open spec fn ids_listed(ids: Seq<u8>, upto: nat) -> Seq<char>
    decreases upto,
{
    if upto == 0 {
        Seq::empty()
    } else if upto == 1 {
        decimal(ids[0] as nat)
    } else {
        ids_listed(ids, (upto - 1) as nat) + ", "@ + decimal(ids[upto - 1] as nat)
    }
}

/// What is written for a list of ids: the numbers in square brackets.
pub open spec fn ids_text(ids: Seq<u8>) -> Seq<char> {
    "["@ + ids_listed(ids, ids.len()) + "]"@
}

/// What is written for a state.
pub open spec fn state_text(state: StateView) -> Seq<char> {
    match state {
        StateView::NotStarted { info } => in_green("Game not started"@) + ", state:\n"@ + grid_text(
            info.grid,
        ),
        StateView::Continue { info } => in_green("Game continue"@) + ", state:\n"@ + grid_text(
            info.grid,
        ),
        StateView::TimeIsOver { winners } => in_green("Time is over"@) + ", winners id: "@
            + ids_text(winners),
        StateView::End { winners } => in_green("End of game with winners"@) + ", winners id: "@
            + ids_text(winners) + "\n"@,
        StateView::Empty => "No state, empty"@,
    }
}

/// What is written for the report of a character.
pub open spec fn character_info_text(info: CharacterInfo) -> Seq<char> {
    "CharacterInfo { health: "@ + decimal(info.health as nat) + ", gun_reloading_await: "@
        + decimal(info.gun_reloading_await as nat) + ", bullet_damage: "@ + decimal(
        info.bullet_damage as nat,
    ) + ", bullet_range: "@ + decimal(info.bullet_range as nat) + ", pos: "@ + (match info.pos {
        Some(pos) => "Some(Pos { x: "@ + decimal(pos.x as nat) + ", y: "@ + decimal(pos.y as nat)
            + " })"@,
        None => "None"@,
    }) + " }"@
}

/// What is written for the report of a player.
pub open spec fn player_info_text(info: PlayerInfo) -> Seq<char> {
    "Player Info: "@ + character_info_text(info.character)
}

/// What a participant reads when its game is over.
pub open spec fn notice_text(notice: Notice) -> Seq<char> {
    match notice {
        Notice::Win => "Win"@,
        Notice::Lose => "Lose"@,
        Notice::Draw => "Draw"@,
        Notice::Timeout => "Game is over"@,
    }
}

fn show_pos(pos: &Pos) -> (text: String)
    ensures
        text@ == pos_text(*pos),
{
    let mut text = String::from_str("[Pos: (");
    text.append(green_number(pos.x).as_str());
    text.append(", ");
    text.append(green_number(pos.y).as_str());
    text.append(")]");
    text
}

fn show_direction(direction: &Direction) -> (text: String)
    ensures
        text@ == direction_text(*direction),
{
    match direction {
        Direction::Bottom => green("Bot"),
        Direction::Top => green("Top"),
        Direction::Left => green("Left"),
        Direction::Right => green("Right"),
        Direction::Nowhere => red("None"),
    }
}

fn show_health(health: &Health) -> (text: String)
    ensures
        text@ == health_text(*health),
{
    let mut text = String::from_str("[Hlth: ");
    text.append(red_number(health.current).as_str());
    text.append("/");
    text.append(green_number(health.max).as_str());
    text.append("]");
    text
}

fn show_bullet(bullet: &Bullet) -> (text: String)
    ensures
        text@ == bullet_text(*bullet),
{
    let mut text = String::from_str("[Bullet| dmg: ");
    text.append(green_number(bullet.damage).as_str());
    match bullet.direction {
        Direction::Nowhere => {
            text.append(", range: ");
            text.append(green_number(bullet.range).as_str());
        },
        _ => {
            text.append(", direct: ");
            text.append(green(show_direction(&bullet.direction).as_str()).as_str());
            text.append(", range: ");
            text.append(green_number(bullet.range).as_str());
            text.append(", pos: ");
            text.append(show_pos(&bullet.pos).as_str());
        },
    }
    text.append("]");
    text
}

fn show_gun(gun: &Gun) -> (text: String)
    ensures
        text@ == gun_text(*gun),
{
    let mut text = String::from_str("[Gun| attack await: ");
    text.append(red_number(gun.reload_awaiting).as_str());
    text.append("/");
    text.append(green_number(gun.reload_time).as_str());
    text.append(", ");
    text.append(show_bullet(&gun.bullet).as_str());
    text.append("]");
    text
}

fn show_character(character: &Character) -> (text: String)
    ensures
        text@ == character_text(*character),
{
    let mut text = String::from_str("[");
    text.append(show_health(&character.health).as_str());
    text.append(", ");
    text.append(show_gun(&character.gun).as_str());
    text.append(", ");
    text.append(show_pos(&character.pos).as_str());
    text.append(", [Speed: ");
    text.append(green_number(character.speed).as_str());
    text.append("]]");
    text
}

fn show_cell(cell: &Cell) -> (text: String)
    ensures
        text@ == cell_text(*cell),
{
    match cell {
        Cell::Player => green("Player"),
        Cell::Bullet => red("Bullet"),
        Cell::Bushes => String::from_str("Bushes"),
        Cell::Empty => String::from_str("Empty"),
        Cell::Wall => String::from_str("Wall"),
        Cell::Bot => String::from_str("Bot"),
    }
}

fn show_grid(grid: &Grid) -> (text: String)
    requires
        grid.wf(),
    ensures
        text@ == grid_text(grid@),
{
    let mut text = String::new();
    let size = grid.get_size();
    let mut x: u8 = 0;
    while x < size
        invariant
            grid.wf(),
            size == grid@.size,
            x <= size,
            text@ == rows_text(grid@, x as nat),
        decreases size - x,
    {
        let ghost above = text@;
        let mut y: u8 = 0;
        while y < size
            invariant
                grid.wf(),
                size == grid@.size,
                x < size,
                y <= size,
                text@ == above + row_text(grid@, x as int, y as nat),
            decreases size - y,
        {
            let cell = grid.get_cell(Pos::new(x, y));
            text.append(show_cell(&cell).as_str());
            text.append(" ");
            assert(text@ =~= above + row_text(grid@, x as int, (y + 1) as nat));
            y += 1;
        }
        text.append("\n");
        assert(text@ =~= rows_text(grid@, (x + 1) as nat));
        x += 1;
    }
    text
}

fn show_ids(ids: &Vec<u8>) -> (text: String)
    ensures
        text@ == ids_text(ids@),
{
    let mut text = String::from_str("[");
    let mut i: usize = 0;
    while i < ids.len()
        invariant
            i <= ids.len(),
            text@ == "["@ + ids_listed(ids@, i as nat),
        decreases ids.len() - i,
    {
        if i > 0 {
            text.append(", ");
        }
        text.append(to_decimal(ids[i]).as_str());
        assert(text@ =~= "["@ + ids_listed(ids@, (i + 1) as nat));
        i += 1;
    }
    text.append("]");
    text
}

fn show_state(state: &GameState) -> (text: String)
    requires
        state.printable(),
    ensures
        text@ == state_text(state@),
{
    match state {
        GameState::NotStarted { info } => {
            let mut text = green("Game not started");
            text.append(", state:\n");
            text.append(show_grid(&info.map).as_str());
            text
        },
        GameState::Continue { info } => {
            let mut text = green("Game continue");
            text.append(", state:\n");
            text.append(show_grid(&info.map).as_str());
            text
        },
        GameState::TimeIsOver { winners } => {
            let mut text = green("Time is over");
            text.append(", winners id: ");
            text.append(show_ids(winners).as_str());
            text
        },
        GameState::End { winners } => {
            let mut text = green("End of game with winners");
            text.append(", winners id: ");
            text.append(show_ids(winners).as_str());
            text.append("\n");
            text
        },
        GameState::Empty => String::from_str("No state, empty"),
    }
}

fn show_character_info(info: &CharacterInfo) -> (text: String)
    ensures
        text@ == character_info_text(*info),
{
    let mut text = String::from_str("CharacterInfo { health: ");
    text.append(to_decimal(info.health).as_str());
    text.append(", gun_reloading_await: ");
    text.append(to_decimal(info.gun_reloading_await).as_str());
    text.append(", bullet_damage: ");
    text.append(to_decimal(info.bullet_damage).as_str());
    text.append(", bullet_range: ");
    text.append(to_decimal(info.bullet_range).as_str());
    text.append(", pos: ");
    let ghost before = text@;
    match info.pos {
        Some(pos) => {
            text.append("Some(Pos { x: ");
            text.append(to_decimal(pos.x).as_str());
            text.append(", y: ");
            text.append(to_decimal(pos.y).as_str());
            text.append(" })");
            assert(text@ =~= before + ("Some(Pos { x: "@ + decimal(pos.x as nat) + ", y: "@
                + decimal(pos.y as nat) + " })"@));
        },
        None => {
            text.append("None");
        },
    }
    text.append(" }");
    text
}

/// Something that can be written out for the terminal.
pub trait Render {
    /// Whether the value is fit to be written out.
    spec fn printable(&self) -> bool;

    /// What is written for the value.
    spec fn text(&self) -> Seq<char>;

    fn to_text(&self) -> (text: String)
        requires
            self.printable(),
        ensures
            text@ == self.text(),
    ;
}

impl Render for Pos {
    open spec fn printable(&self) -> bool {
        true
    }

    open spec fn text(&self) -> Seq<char> {
        pos_text(*self)
    }

    fn to_text(&self) -> (text: String)
        ensures
            text@ == pos_text(*self),
    {
        show_pos(self)
    }
}

impl Render for Direction {
    open spec fn printable(&self) -> bool {
        true
    }

    open spec fn text(&self) -> Seq<char> {
        direction_text(*self)
    }

    fn to_text(&self) -> (text: String)
        ensures
            text@ == direction_text(*self),
    {
        show_direction(self)
    }
}

impl Render for Health {
    open spec fn printable(&self) -> bool {
        true
    }

    open spec fn text(&self) -> Seq<char> {
        health_text(*self)
    }

    fn to_text(&self) -> (text: String)
        ensures
            text@ == health_text(*self),
    {
        show_health(self)
    }
}

impl Render for Bullet {
    open spec fn printable(&self) -> bool {
        true
    }

    open spec fn text(&self) -> Seq<char> {
        bullet_text(*self)
    }

    fn to_text(&self) -> (text: String)
        ensures
            text@ == bullet_text(*self),
    {
        show_bullet(self)
    }
}

impl Render for Gun {
    open spec fn printable(&self) -> bool {
        true
    }

    open spec fn text(&self) -> Seq<char> {
        gun_text(*self)
    }

    fn to_text(&self) -> (text: String)
        ensures
            text@ == gun_text(*self),
    {
        show_gun(self)
    }
}

impl Render for Character {
    open spec fn printable(&self) -> bool {
        true
    }

    open spec fn text(&self) -> Seq<char> {
        character_text(*self)
    }

    fn to_text(&self) -> (text: String)
        ensures
            text@ == character_text(*self),
    {
        show_character(self)
    }
}

impl Render for Grid {
    open spec fn printable(&self) -> bool {
        self.wf()
    }

    open spec fn text(&self) -> Seq<char> {
        grid_text(self@)
    }

    fn to_text(&self) -> (text: String)
        ensures
            text@ == grid_text(self@),
    {
        show_grid(self)
    }
}

impl Render for GameInfo {
    open spec fn printable(&self) -> bool {
        self.map.wf()
    }

    open spec fn text(&self) -> Seq<char> {
        grid_text(self@.grid)
    }

    fn to_text(&self) -> (text: String)
        ensures
            text@ == grid_text(self@.grid),
    {
        show_grid(&self.map)
    }
}

impl Render for GameState {
    open spec fn printable(&self) -> bool {
        GameState::printable(self)
    }

    open spec fn text(&self) -> Seq<char> {
        state_text(self@)
    }

    fn to_text(&self) -> (text: String)
        ensures
            text@ == state_text(self@),
    {
        show_state(self)
    }
}

impl Render for PlayerInfo {
    open spec fn printable(&self) -> bool {
        true
    }

    open spec fn text(&self) -> Seq<char> {
        player_info_text(*self)
    }

    fn to_text(&self) -> (text: String)
        ensures
            text@ == player_info_text(*self),
    {
        let mut text = String::from_str("Player Info: ");
        text.append(show_character_info(&self.character).as_str());
        text
    }
}

impl Render for Notice {
    open spec fn printable(&self) -> bool {
        true
    }

    open spec fn text(&self) -> Seq<char> {
        notice_text(*self)
    }

    fn to_text(&self) -> (text: String)
        ensures
            text@ == notice_text(*self),
    {
        match self {
            Notice::Win => String::from_str("Win"),
            Notice::Lose => String::from_str("Lose"),
            Notice::Draw => String::from_str("Draw"),
            Notice::Timeout => String::from_str("Game is over"),
        }
    }
}

} // verus!
