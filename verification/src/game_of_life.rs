//! Game of Life cellular automaton.
//!
//! Conway's Game of Life with configurable birth/survival rules and three
//! edge-handling modes.  The grid is a flat row-major byte array where `0` is
//! a dead cell and any positive value is a live cell (the value tracks the
//! cell's age).  A back buffer makes each generation a pure function of the
//! previous one.

use vstd::prelude::*;

verus! {

use vstd::string::{StrSliceExecFns, StringExecFns};

/// Edge handling for cells on the border of the grid.
#[derive(Debug, Clone, Copy, PartialEq, Eq, Structural)]
pub enum EdgeMode {
    /// Cells outside the grid are considered dead.
    Dead,
    /// Cells outside the grid are considered alive.
    Alive,
    /// Edges wrap around (toroidal topology).
    Mirror,
}

impl Default for EdgeMode {
    fn default() -> (r: Self)
        ensures
            r == EdgeMode::Dead,
    {
        EdgeMode::Dead
    }
}

impl EdgeMode {
    /// The display name of this mode.
    pub open spec fn spec_display_name(self) -> Seq<char> {
        match self {
            EdgeMode::Dead => "Dead Edges"@,
            EdgeMode::Alive => "Alive Edges"@,
            EdgeMode::Mirror => "Wrap Around"@,
        }
    }

    /// Get all available edge modes.
    pub fn all() -> (r: Vec<EdgeMode>)
        ensures
            r@ == seq![EdgeMode::Dead, EdgeMode::Alive, EdgeMode::Mirror],
    {
        let r = vec![EdgeMode::Dead, EdgeMode::Alive, EdgeMode::Mirror];
        assert(r@ =~= seq![EdgeMode::Dead, EdgeMode::Alive, EdgeMode::Mirror]);
        r
    }

    /// Get the display name for this mode.
    pub fn display_name(&self) -> (r: &'static str)
        ensures
            r@ == self.spec_display_name(),
    {
        match self {
            EdgeMode::Dead => "Dead Edges",
            EdgeMode::Alive => "Alive Edges",
            EdgeMode::Mirror => "Wrap Around",
        }
    }
}

/// Configuration for the Game of Life simulation.
#[derive(Debug, Clone)]
pub struct GameOfLifeConfig {
    /// Grid width in cells.
    pub width: usize,
    /// Grid height in cells.
    pub height: usize,
    /// Cell render size in pixels.
    pub cell_size: usize,
    /// Birth conditions (number of neighbors that cause a dead cell to become alive).
    pub born: Vec<u8>,
    /// Survival conditions (number of neighbors that keep a cell alive).
    pub survives: Vec<u8>,
    /// Edge handling mode.
    pub edge_mode: EdgeMode,
    /// Animation speed in milliseconds per generation.
    pub speed_ms: u32,
}

impl GameOfLifeConfig {
    /// The default configuration apart from the rule vectors.
    pub open spec fn default_base(self) -> bool {
        &&& self.width == 256
        &&& self.height == 256
        &&& self.cell_size == 4
        &&& self.edge_mode == EdgeMode::Dead
        &&& self.speed_ms == 100
    }
}

impl Default for GameOfLifeConfig {
    fn default() -> (r: Self)
        ensures
            r.default_base(),
            r.born@ == seq![3u8],
            r.survives@ == seq![2u8, 3u8],
    {
        let born = vec![3u8];
        let survives = vec![2u8, 3u8];
        assert(born@ =~= seq![3u8]);
        assert(survives@ =~= seq![2u8, 3u8]);
        GameOfLifeConfig {
            width: 256,
            height: 256,
            cell_size: 4,
            born,
            survives,
            edge_mode: EdgeMode::Dead,
            speed_ms: 100,
        }
    }
}

impl GameOfLifeConfig {
    /// Create a configuration for Conway's standard Game of Life (B3/S23).
    pub fn conway() -> (r: Self)
        ensures
            r.default_base(),
            r.born@ == seq![3u8],
            r.survives@ == seq![2u8, 3u8],
    {
        Self::default()
    }

    /// Create a configuration for HighLife (B36/S23).
    pub fn highlife() -> (r: Self)
        ensures
            r.default_base(),
            r.born@ == seq![3u8, 6u8],
            r.survives@ == seq![2u8, 3u8],
    {
        let born = vec![3u8, 6u8];
        assert(born@ =~= seq![3u8, 6u8]);
        let mut r = Self::default();
        r.born = born;
        r
    }

    /// Create a configuration for Day & Night (B3678/S34678).
    pub fn day_and_night() -> (r: Self)
        ensures
            r.default_base(),
            r.born@ == seq![3u8, 6u8, 7u8, 8u8],
            r.survives@ == seq![3u8, 4u8, 6u8, 7u8, 8u8],
    {
        let born = vec![3u8, 6u8, 7u8, 8u8];
        let survives = vec![3u8, 4u8, 6u8, 7u8, 8u8];
        assert(born@ =~= seq![3u8, 6u8, 7u8, 8u8]);
        assert(survives@ =~= seq![3u8, 4u8, 6u8, 7u8, 8u8]);
        let mut r = Self::default();
        r.born = born;
        r.survives = survives;
        r
    }

    /// Create a configuration for Seeds (B2/S).
    pub fn seeds() -> (r: Self)
        ensures
            r.default_base(),
            r.born@ == seq![2u8],
            r.survives@ == Seq::<u8>::empty(),
    {
        let born = vec![2u8];
        let survives: Vec<u8> = Vec::new();
        assert(born@ =~= seq![2u8]);
        let mut r = Self::default();
        r.born = born;
        r.survives = survives;
        r
    }
}

/// The character for a single decimal digit.
pub open spec fn digit_char(d: int) -> char {
    if d == 0 {
        '0'
    } else if d == 1 {
        '1'
    } else if d == 2 {
        '2'
    } else if d == 3 {
        '3'
    } else if d == 4 {
        '4'
    } else if d == 5 {
        '5'
    } else if d == 6 {
        '6'
    } else if d == 7 {
        '7'
    } else if d == 8 {
        '8'
    } else {
        '9'
    }
}

/// The decimal representation of a byte, one to three characters.
pub open spec fn decimal_chars(n: int) -> Seq<char> {
    if n < 10 {
        seq![digit_char(n)]
    } else if n < 100 {
        seq![digit_char(n / 10), digit_char(n % 10)]
    } else {
        seq![digit_char(n / 100), digit_char((n / 10) % 10), digit_char(n % 10)]
    }
}

/// The concatenated decimal representations of a rule vector.
pub open spec fn rule_digits(rule: Seq<u8>) -> Seq<char>
    decreases rule.len(),
{
    if rule.len() == 0 {
        Seq::empty()
    } else {
        rule_digits(rule.drop_last()) + decimal_chars(rule.last() as int)
    }
}

/// The B/S notation of a pair of rule vectors, e.g. `B3/S23`.
pub open spec fn spec_rule_string(born: Seq<u8>, survives: Seq<u8>) -> Seq<char> {
    "B"@ + rule_digits(born) + "/S"@ + rule_digits(survives)
}

/// Whether `c` is a decimal digit.
pub open spec fn is_digit(c: char) -> bool {
    c == '0' || c == '1' || c == '2' || c == '3' || c == '4' || c == '5' || c == '6' || c == '7'
        || c == '8' || c == '9'
}

/// The value of a decimal digit character.
pub open spec fn digit_val(c: char) -> u8 {
    if c == '0' {
        0
    } else if c == '1' {
        1
    } else if c == '2' {
        2
    } else if c == '3' {
        3
    } else if c == '4' {
        4
    } else if c == '5' {
        5
    } else if c == '6' {
        6
    } else if c == '7' {
        7
    } else if c == '8' {
        8
    } else {
        9
    }
}

/// The values of the digit characters of `s`, other characters skipped.
pub open spec fn digit_values(s: Seq<char>) -> Seq<u8>
    decreases s.len(),
{
    if s.len() == 0 {
        Seq::empty()
    } else {
        let rest = digit_values(s.drop_last());
        if is_digit(s.last()) {
            rest.push(digit_val(s.last()))
        } else {
            rest
        }
    }
}

/// The index of the first `/` in `s`, or `s.len()` if there is none.
pub open spec fn first_slash(s: Seq<char>) -> int
    decreases s.len(),
{
    if s.len() == 0 {
        0
    } else if s[0] == '/' {
        0
    } else {
        1 + first_slash(s.drop_first())
    }
}

/// Whether `s` contains the character `c`.
pub open spec fn has_char(s: Seq<char>, c: char) -> bool {
    exists|k: int| 0 <= k < s.len() && s[k] == c
}

/// What parsing a B/S rule string yields: the rule must have exactly one
/// `/`, the part before it must start with `B` or `b`, the part after it
/// must start with `S` or `s`, and the digits of the two remainders are the
/// birth and survival neighbor counts.
pub open spec fn spec_parse_rule(s: Seq<char>) -> Option<(Seq<u8>, Seq<u8>)> {
    let p = first_slash(s);
    if p == s.len() {
        None
    } else {
        let part0 = s.subrange(0, p);
        let part1 = s.subrange(p + 1, s.len() as int);
        if has_char(part1, '/') {
            None
        } else if part0.len() == 0 || !(part0[0] == 'B' || part0[0] == 'b') {
            None
        } else if part1.len() == 0 || !(part1[0] == 'S' || part1[0] == 's') {
            None
        } else {
            Some((digit_values(part0.drop_first()), digit_values(part1.drop_first())))
        }
    }
}

/// A scan that saw no `/` before position `i`, and one at `i` (or ran off
/// the end), has found the first slash.
proof fn lemma_first_slash_at(s: Seq<char>, i: int)
    requires
        0 <= i <= s.len(),
        forall|k: int| 0 <= k < i ==> s[k] != '/',
        i == s.len() || s[i] == '/',
    ensures
        first_slash(s) == i,
    decreases i,
{
    if s.len() == 0 {
    } else if i == 0 {
    } else {
        lemma_first_slash_at(s.drop_first(), i - 1);
    }
}

/// The exec counterpart of [`digit_char`].
fn digit_str(d: u8) -> (r: &'static str)
    requires
        d <= 9,
    ensures
        r@ == seq![digit_char(d as int)],
{
    proof {
        reveal_strlit("0");
        reveal_strlit("1");
        reveal_strlit("2");
        reveal_strlit("3");
        reveal_strlit("4");
        reveal_strlit("5");
        reveal_strlit("6");
        reveal_strlit("7");
        reveal_strlit("8");
        reveal_strlit("9");
    }
    let r = if d == 0 {
        "0"
    } else if d == 1 {
        "1"
    } else if d == 2 {
        "2"
    } else if d == 3 {
        "3"
    } else if d == 4 {
        "4"
    } else if d == 5 {
        "5"
    } else if d == 6 {
        "6"
    } else if d == 7 {
        "7"
    } else if d == 8 {
        "8"
    } else {
        "9"
    };
    proof {
        assert(r@ =~= seq![digit_char(d as int)]);
    }
    r
}

/// Append the decimal representation of `n` to `s`.
fn push_decimal(s: &mut String, n: u8)
    ensures
        final(s)@ == old(s)@ + decimal_chars(n as int),
{
    let ghost start = s@;
    if n >= 100 {
        s.append(digit_str(n / 100));
    }
    if n >= 10 {
        s.append(digit_str((n / 10) % 10));
    }
    s.append(digit_str(n % 10));
    proof {
        assert(s@ =~= start + decimal_chars(n as int));
    }
}

impl GameOfLifeConfig {
    /// Get the rule string in B/S notation (e.g., "B3/S23").
    pub fn rule_string(&self) -> (r: String)
        ensures
            r@ == spec_rule_string(self.born@, self.survives@),
    {
        let mut s = String::new();
        s.append("B");
        let blen = self.born.len();
        let mut i: usize = 0;
        while i < blen
            invariant
                blen == self.born@.len(),
                i <= blen,
                s@ == "B"@ + rule_digits(self.born@.take(i as int)),
            decreases blen - i,
        {
            push_decimal(&mut s, self.born[i]);
            proof {
                assert(self.born@.take(i + 1).drop_last() =~= self.born@.take(i as int));
                assert(s@ =~= "B"@ + rule_digits(self.born@.take(i + 1)));
            }
            i = i + 1;
        }
        proof {
            assert(self.born@.take(blen as int) =~= self.born@);
        }
        s.append("/S");
        let ghost mid = s@;
        let slen = self.survives.len();
        let mut j: usize = 0;
        while j < slen
            invariant
                slen == self.survives@.len(),
                j <= slen,
                s@ == mid + rule_digits(self.survives@.take(j as int)),
                mid == "B"@ + rule_digits(self.born@) + "/S"@,
            decreases slen - j,
        {
            push_decimal(&mut s, self.survives[j]);
            proof {
                assert(self.survives@.take(j + 1).drop_last() =~= self.survives@.take(j as int));
                assert(s@ =~= mid + rule_digits(self.survives@.take(j + 1)));
            }
            j = j + 1;
        }
        proof {
            assert(self.survives@.take(slen as int) =~= self.survives@);
            assert(s@ =~= spec_rule_string(self.born@, self.survives@));
        }
        s
    }

    /// Parse a rule string in B/S notation; see [`spec_parse_rule`] for
    /// exactly which strings are accepted.  The grid dimensions and other
    /// settings take their default values.
    pub fn from_rule_string(rule: &str) -> (r: Option<Self>)
        ensures
            r is Some <==> spec_parse_rule(rule@) is Some,
            r matches Some(cfg) ==> {
                &&& spec_parse_rule(rule@) matches Some(pair) && cfg.born@ == pair.0
                    && cfg.survives@ == pair.1
                &&& cfg.default_base()
            },
    {
        let n = rule.unicode_len();
        // Find the first '/' and reject a second one.
        let mut p: usize = 0;
        while p < n
            invariant
                n == rule@.len(),
                p <= n,
                forall|k: int| 0 <= k < p ==> rule@[k] != '/',
            ensures
                p <= n,
                forall|k: int| 0 <= k < p ==> rule@[k] != '/',
                p == n || rule@[p as int] == '/',
            decreases n - p,
        {
            if rule.get_char(p) == '/' {
                break ;
            }
            p = p + 1;
        }
        proof {
            lemma_first_slash_at(rule@, p as int);
        }
        if p == n {
            return None;
        }
        let ghost part0 = rule@.subrange(0, p as int);
        let ghost part1 = rule@.subrange(p as int + 1, n as int);
        let mut k: usize = p + 1;
        while k < n
            invariant
                n == rule@.len(),
                p < n,
                first_slash(rule@) == p as int,
                p + 1 <= k <= n,
                part1 == rule@.subrange(p as int + 1, n as int),
                forall|t: int| p < t < k ==> rule@[t] != '/',
            decreases n - k,
        {
            if rule.get_char(k) == '/' {
                assert(part1[k - p - 1] == '/');
                return None;
            }
            k = k + 1;
        }
        assert(!has_char(part1, '/'));
        if p == 0 {
            return None;
        }
        let b0 = rule.get_char(0);
        if !(b0 == 'B' || b0 == 'b') {
            return None;
        }
        if p + 1 == n {
            return None;
        }
        let s0 = rule.get_char(p + 1);
        if !(s0 == 'S' || s0 == 's') {
            return None;
        }
        let born = collect_digits(rule, 1, p);
        let survives = collect_digits(rule, p + 2, n);
        proof {
            assert(part0.drop_first() =~= rule@.subrange(1, p as int));
            assert(part1.drop_first() =~= rule@.subrange(p as int + 2, n as int));
        }
        let mut cfg = Self::default();
        cfg.born = born;
        cfg.survives = survives;
        Some(cfg)
    }
}

/// Collect the values of the digit characters of `rule` in `[from, to)`.
fn collect_digits(rule: &str, from: usize, to: usize) -> (r: Vec<u8>)
    requires
        from <= to <= rule@.len(),
    ensures
        r@ == digit_values(rule@.subrange(from as int, to as int)),
{
    let mut r: Vec<u8> = Vec::new();
    let mut i: usize = from;
    while i < to
        invariant
            from <= i <= to <= rule@.len(),
            r@ == digit_values(rule@.subrange(from as int, i as int)),
        decreases to - i,
    {
        let c = rule.get_char(i);
        if c == '0' {
            r.push(0);
        } else if c == '1' {
            r.push(1);
        } else if c == '2' {
            r.push(2);
        } else if c == '3' {
            r.push(3);
        } else if c == '4' {
            r.push(4);
        } else if c == '5' {
            r.push(5);
        } else if c == '6' {
            r.push(6);
        } else if c == '7' {
            r.push(7);
        } else if c == '8' {
            r.push(8);
        } else if c == '9' {
            r.push(9);
        }
        proof {
            assert(rule@.subrange(from as int, i + 1).drop_last() =~= rule@.subrange(
                from as int,
                i as int,
            ));
        }
        i = i + 1;
    }
    r
}

/// Number of live cells among the first `k` entries of a grid.
pub open spec fn live_prefix(grid: Seq<u8>, k: int) -> int
    decreases k,
{
    if k <= 0 {
        0
    } else {
        live_prefix(grid, k - 1) + if grid[k - 1] > 0 {
            1int
        } else {
            0int
        }
    }
}

/// Number of live cells in a grid.
pub open spec fn live_cells(grid: Seq<u8>) -> int {
    live_prefix(grid, grid.len() as int)
}

/// A prefix of dead cells holds no live cells.
proof fn lemma_live_prefix_zero(grid: Seq<u8>, k: int)
    requires
        k <= grid.len(),
        forall|i: int| 0 <= i < k ==> grid[i] == 0,
    ensures
        live_prefix(grid, k) == 0,
    decreases k,
{
    if k > 0 {
        lemma_live_prefix_zero(grid, k - 1);
    }
}

/// Two grids that agree on their first `k` entries have the same number of
/// live cells among them.
proof fn lemma_live_prefix_agree(g1: Seq<u8>, g2: Seq<u8>, k: int)
    requires
        0 <= k <= g1.len(),
        k <= g2.len(),
        forall|i: int| 0 <= i < k ==> g1[i] == g2[i],
    ensures
        live_prefix(g1, k) == live_prefix(g2, k),
    decreases k,
{
    if k > 0 {
        lemma_live_prefix_agree(g1, g2, k - 1);
    }
}

/// The mathematical model of a [`GameOfLife`]: the configuration, the flat
/// row-major grid contents, and the two counters.
pub struct GameOfLifeView {
    /// Configuration the game was built with.
    pub config: GameOfLifeConfig,
    /// Row-major grid contents (0 = dead, 1+ = alive with age).
    pub cells: Seq<u8>,
    /// Generations stepped so far.
    pub generation: u64,
    /// Cached number of live cells.
    pub population: usize,
}

/// `1` for a live neighbor, `0` for a dead one.
pub open spec fn b2i(b: bool) -> int {
    if b {
        1
    } else {
        0
    }
}

impl GameOfLifeView {
    /// The cell value reported at `(x, y)`: the stored byte inside the grid,
    /// and `0` outside it.
    pub open spec fn cell(self, x: int, y: int) -> u8 {
        if 0 <= x < self.config.width && 0 <= y < self.config.height {
            self.cells[y * self.config.width + x]
        } else {
            0
        }
    }

    /// Whether the cell seen at `(x, y)` is alive, for coordinates that may
    /// lie one step outside the grid.  Outside the grid the edge mode
    /// decides: always dead, always alive, or wrapped around toroidally
    /// (`%` is the Euclidean remainder in ghost arithmetic).
    pub open spec fn seen_alive(self, x: int, y: int) -> bool {
        let w = self.config.width as int;
        let h = self.config.height as int;
        if 0 <= x < w && 0 <= y < h {
            self.cells[y * w + x] > 0
        } else {
            match self.config.edge_mode {
                EdgeMode::Dead => false,
                EdgeMode::Alive => true,
                EdgeMode::Mirror => self.cells[(y % h) * w + (x % w)] > 0,
            }
        }
    }

    /// Number of live cells among the eight neighbors of `(x, y)`.
    pub open spec fn neighbor_count(self, x: int, y: int) -> int {
        b2i(self.seen_alive(x - 1, y - 1)) + b2i(self.seen_alive(x, y - 1)) + b2i(
            self.seen_alive(x + 1, y - 1),
        ) + b2i(self.seen_alive(x - 1, y)) + b2i(self.seen_alive(x + 1, y)) + b2i(
            self.seen_alive(x - 1, y + 1),
        ) + b2i(self.seen_alive(x, y + 1)) + b2i(self.seen_alive(x + 1, y + 1))
    }

    /// The value cell `(x, y)` takes in the next generation: a live cell
    /// survives (and ages, saturating at 255) when its neighbor count is in
    /// the survival rule, a dead cell is born at age 1 when its neighbor
    /// count is in the birth rule.
    pub open spec fn next_cell(self, x: int, y: int) -> u8 {
        let n = self.neighbor_count(x, y);
        let current = self.cells[y * self.config.width + x];
        let will_live = if current > 0 {
            self.config.survives@.contains(n as u8)
        } else {
            self.config.born@.contains(n as u8)
        };
        if will_live {
            if current > 0 {
                if current == 255 {
                    255u8
                } else {
                    (current + 1) as u8
                }
            } else {
                1u8
            }
        } else {
            0u8
        }
    }
}

/// Game of Life simulation state.
pub struct GameOfLife {
    /// Current grid state (0 = dead, 1+ = alive with age).
    grid: Vec<u8>,
    /// Back buffer for double-buffering.
    back_buffer: Vec<u8>,
    /// Configuration.
    config: GameOfLifeConfig,
    /// Current generation count.
    generation: u64,
    /// Current population (number of alive cells).
    population: usize,
}

impl View for GameOfLife {
    type V = GameOfLifeView;

    closed spec fn view(&self) -> GameOfLifeView {
        GameOfLifeView {
            config: self.config,
            cells: self.grid@,
            generation: self.generation,
            population: self.population,
        }
    }
}

impl GameOfLife {
    /// The grid holds one cell per coordinate pair — so callers know the
    /// length of [`Self::grid`] — and the internal back buffer matches it.
    pub open spec fn wf(self) -> bool {
        &&& self@.config.width * self@.config.height <= usize::MAX
        &&& self@.cells.len() == self@.config.width * self@.config.height
        &&& self.buffers_sized()
    }

    /// The internal back buffer covers the whole grid as well.
    pub closed spec fn buffers_sized(self) -> bool {
        self.back_buffer@.len() == self.config.width * self.config.height
    }

    /// Create a new Game of Life simulation with the given configuration.
    pub fn new(config: GameOfLifeConfig) -> (r: Self)
        requires
            config.width * config.height <= usize::MAX,
        ensures
            r.wf(),
            r@.config == config,
            r@.generation == 0,
            r@.population == 0,
            forall|i: int| 0 <= i < r@.cells.len() ==> r@.cells[i] == 0,
    {
        proof {
            vstd::arithmetic::mul::lemma_mul_nonnegative(
                config.width as int,
                config.height as int,
            );
        }
        let size = config.width * config.height;
        let grid = vec![0u8; size];
        let back_buffer = vec![0u8; size];
        GameOfLife { grid, back_buffer, config, generation: 0, population: 0 }
    }

    /// Create with default configuration.
    pub fn default_conway() -> (r: Self)
        ensures
            r.wf(),
            r@.config.default_base(),
            r@.config.born@ == seq![3u8],
            r@.config.survives@ == seq![2u8, 3u8],
            r@.generation == 0,
            r@.population == 0,
            forall|i: int| 0 <= i < r@.cells.len() ==> r@.cells[i] == 0,
    {
        Self::new(GameOfLifeConfig::conway())
    }

    /// Get the grid width.
    pub fn width(&self) -> (r: usize)
        ensures
            r == self@.config.width,
    {
        self.config.width
    }

    /// Get the grid height.
    pub fn height(&self) -> (r: usize)
        ensures
            r == self@.config.height,
    {
        self.config.height
    }

    /// Get the current generation count.
    pub fn generation(&self) -> (r: u64)
        ensures
            r == self@.generation,
    {
        self.generation
    }

    /// Get the current population.
    pub fn population(&self) -> (r: usize)
        ensures
            r == self@.population,
    {
        self.population
    }

    /// Get the configuration.
    pub fn config(&self) -> (r: &GameOfLifeConfig)
        ensures
            r == &self@.config,
    {
        &self.config
    }

    /// Get cell state at position (0 = dead, 1+ = alive).
    pub fn get_cell(&self, x: usize, y: usize) -> (r: u8)
        requires
            self.wf(),
        ensures
            r == self@.cell(x as int, y as int),
    {
        if x < self.config.width && y < self.config.height {
            proof {
                lemma_row_major_bound(
                    x as int,
                    y as int,
                    self.config.width as int,
                    self.config.height as int,
                );
            }
            self.grid[y * self.config.width + x]
        } else {
            0
        }
    }

    /// Set cell state at position.  Out-of-range positions are ignored.
    /// The cached population count is not updated; it is recomputed on the
    /// next `step`, `clear` or pattern load.
    pub fn set_cell(&mut self, x: usize, y: usize, state: u8)
        requires
            old(self).wf(),
        ensures
            final(self).wf(),
            final(self)@.config == old(self)@.config,
            final(self)@.generation == old(self)@.generation,
            final(self)@.population == old(self)@.population,
            final(self)@.cell(x as int, y as int) == if x < old(self)@.config.width
                && y < old(self)@.config.height {
                state
            } else {
                0u8
            },
            forall|i: int, j: int|
                !(i == x && j == y) ==> final(self)@.cell(i, j) == old(self)@.cell(i, j),
    {
        if x < self.config.width && y < self.config.height {
            proof {
                lemma_row_major_bound(
                    x as int,
                    y as int,
                    self.config.width as int,
                    self.config.height as int,
                );
            }
            let idx = y * self.config.width + x;
            self.grid.set(idx, state);
            proof {
                let w = self.config.width as int;
                let h = self.config.height as int;
                assert forall|i: int, j: int| !(i == x && j == y) implies self@.cell(i, j)
                    == old(self)@.cell(i, j) by {
                    if 0 <= i < w && 0 <= j < h {
                        lemma_row_major_bound(i, j, w, h);
                        lemma_row_major_distinct(w, h, x as int, y as int, i, j);
                    }
                }
            }
        }
    }

    /// Toggle cell state at position between dead and alive (age 1).
    pub fn toggle_cell(&mut self, x: usize, y: usize)
        requires
            old(self).wf(),
        ensures
            final(self).wf(),
            final(self)@.config == old(self)@.config,
            final(self)@.generation == old(self)@.generation,
            final(self)@.population == old(self)@.population,
            final(self)@.cell(x as int, y as int) == if x < old(self)@.config.width
                && y < old(self)@.config.height {
                if old(self)@.cell(x as int, y as int) > 0 {
                    0u8
                } else {
                    1u8
                }
            } else {
                0u8
            },
            forall|i: int, j: int|
                !(i == x && j == y) ==> final(self)@.cell(i, j) == old(self)@.cell(i, j),
    {
        if x < self.config.width && y < self.config.height {
            proof {
                lemma_row_major_bound(
                    x as int,
                    y as int,
                    self.config.width as int,
                    self.config.height as int,
                );
            }
            let idx = y * self.config.width + x;
            let state: u8 = if self.grid[idx] > 0 {
                0
            } else {
                1
            };
            self.grid.set(idx, state);
            proof {
                let w = self.config.width as int;
                let h = self.config.height as int;
                assert forall|i: int, j: int| !(i == x && j == y) implies self@.cell(i, j)
                    == old(self)@.cell(i, j) by {
                    if 0 <= i < w && 0 <= j < h {
                        lemma_row_major_bound(i, j, w, h);
                        lemma_row_major_distinct(w, h, x as int, y as int, i, j);
                    }
                }
            }
        }
    }

    /// Clear the entire grid and reset the generation and population counts.
    pub fn clear(&mut self)
        requires
            old(self).wf(),
        ensures
            final(self).wf(),
            final(self)@.config == old(self)@.config,
            final(self)@.generation == 0,
            final(self)@.population == 0,
            forall|i: int, j: int| final(self)@.cell(i, j) == 0,
            final(self)@.population == live_cells(final(self)@.cells),
    {
        let len = self.grid.len();
        let mut i: usize = 0;
        while i < len
            invariant
                len == self.grid@.len(),
                i <= len,
                self.back_buffer == old(self).back_buffer,
                self.config == old(self).config,
                forall|k: int| 0 <= k < i ==> self.grid@[k] == 0,
            decreases len - i,
        {
            self.grid.set(i, 0);
            i = i + 1;
        }
        self.generation = 0;
        self.population = 0;
        proof {
            let w = self.config.width as int;
            let h = self.config.height as int;
            assert forall|i: int, j: int| self@.cell(i, j) == 0 by {
                if 0 <= i < w && 0 <= j < h {
                    lemma_row_major_bound(i, j, w, h);
                }
            }
            lemma_live_prefix_zero(self.grid@, self.grid@.len() as int);
        }
    }
}

/// Whether `target` occurs in `v`.
fn contains_u8(v: &Vec<u8>, target: u8) -> (r: bool)
    ensures
        r == v@.contains(target),
{
    let len = v.len();
    let mut i: usize = 0;
    while i < len
        invariant
            len == v@.len(),
            i <= len,
            forall|k: int| 0 <= k < i ==> v@[k] != target,
        decreases len - i,
    {
        if v[i] == target {
            return true;
        }
        i = i + 1;
    }
    false
}

/// For a positive modulus, values already in range, and the two values one
/// step outside it, the Euclidean remainder is the wrapped coordinate.
proof fn lemma_wrap_one_step(w: int)
    requires
        w > 0,
    ensures
        (-1int) % w == w - 1,
        w % w == 0,
        forall|k: int| 0 <= k < w ==> #[trigger] (k % w) == k,
{
    vstd::arithmetic::div_mod::lemma_mod_multiples_vanish(1, -1, w);
    vstd::arithmetic::div_mod::lemma_small_mod((w - 1) as nat, w as nat);
    vstd::arithmetic::div_mod::lemma_mod_self_0(w);
    assert forall|k: int| 0 <= k < w implies #[trigger] (k % w) == k by {
        vstd::arithmetic::div_mod::lemma_small_mod(k as nat, w as nat);
    }
}

impl GameOfLife {
    /// Whether the neighbor of `(x, y)` at offset `(dx, dy)` is seen alive
    /// under the configured edge mode.
    fn neighbor_alive(&self, x: usize, y: usize, dx: i8, dy: i8) -> (r: bool)
        requires
            self.wf(),
            x < self.config.width,
            y < self.config.height,
            -1 <= dx <= 1,
            -1 <= dy <= 1,
        ensures
            r == self@.seen_alive(x + dx, y + dy),
    {
        let w = self.config.width;
        let h = self.config.height;
        // Whether the offset coordinate falls outside the grid on each axis.
        let out_x = (dx == -1 && x == 0) || (dx == 1 && x + 1 == w);
        let out_y = (dy == -1 && y == 0) || (dy == 1 && y + 1 == h);
        if !out_x && !out_y {
            let nx = if dx == -1 {
                x - 1
            } else if dx == 1 {
                x + 1
            } else {
                x
            };
            let ny = if dy == -1 {
                y - 1
            } else if dy == 1 {
                y + 1
            } else {
                y
            };
            proof {
                lemma_row_major_bound(nx as int, ny as int, w as int, h as int);
            }
            self.grid[ny * w + nx] > 0
        } else {
            match self.config.edge_mode {
                EdgeMode::Dead => false,
                EdgeMode::Alive => true,
                EdgeMode::Mirror => {
                    // Wrap each axis; the coordinate is at most one step
                    // outside, so wrapping is a single conditional.
                    let wx = if dx == -1 {
                        if x == 0 {
                            w - 1
                        } else {
                            x - 1
                        }
                    } else if dx == 1 {
                        if x + 1 == w {
                            0
                        } else {
                            x + 1
                        }
                    } else {
                        x
                    };
                    let wy = if dy == -1 {
                        if y == 0 {
                            h - 1
                        } else {
                            y - 1
                        }
                    } else if dy == 1 {
                        if y + 1 == h {
                            0
                        } else {
                            y + 1
                        }
                    } else {
                        y
                    };
                    proof {
                        lemma_wrap_one_step(w as int);
                        lemma_wrap_one_step(h as int);
                        lemma_row_major_bound(wx as int, wy as int, w as int, h as int);
                    }
                    self.grid[wy * w + wx] > 0
                },
            }
        }
    }

    /// Count alive neighbors for a cell.
    fn count_neighbors(&self, x: usize, y: usize) -> (r: u8)
        requires
            self.wf(),
            x < self.config.width,
            y < self.config.height,
        ensures
            r as int == self@.neighbor_count(x as int, y as int),
            r <= 8,
    {
        let mut count: u8 = 0;
        if self.neighbor_alive(x, y, -1, -1) {
            count = count + 1;
        }
        if self.neighbor_alive(x, y, 0, -1) {
            count = count + 1;
        }
        if self.neighbor_alive(x, y, 1, -1) {
            count = count + 1;
        }
        if self.neighbor_alive(x, y, -1, 0) {
            count = count + 1;
        }
        if self.neighbor_alive(x, y, 1, 0) {
            count = count + 1;
        }
        if self.neighbor_alive(x, y, -1, 1) {
            count = count + 1;
        }
        if self.neighbor_alive(x, y, 0, 1) {
            count = count + 1;
        }
        if self.neighbor_alive(x, y, 1, 1) {
            count = count + 1;
        }
        count
    }

    /// Advance the simulation by one generation: every cell of the new grid
    /// follows the configured birth/survival rule, the generation counter is
    /// incremented, and the population count is recomputed exactly.
    pub fn step(&mut self)
        requires
            old(self).wf(),
            old(self)@.generation < u64::MAX,
        ensures
            final(self).wf(),
            final(self)@.config == old(self)@.config,
            final(self)@.cells.len() == old(self)@.cells.len(),
            final(self)@.generation == old(self)@.generation + 1,
            forall|x: int, y: int|
                0 <= x < old(self)@.config.width && 0 <= y < old(self)@.config.height
                    ==> final(self)@.cell(x, y) == old(self)@.next_cell(x, y),
            final(self)@.population == live_cells(final(self)@.cells),
    {
        let w = self.config.width;
        let h = self.config.height;
        let mut population: usize = 0;
        let mut y: usize = 0;
        while y < h
            invariant
                old(self).wf(),
                self.grid == old(self).grid,
                self.config == old(self).config,
                self.generation == old(self).generation,
                self.back_buffer@.len() == old(self).back_buffer@.len(),
                w == self.config.width,
                h == self.config.height,
                y <= h,
                y * w <= w * h,
                population == live_prefix(self.back_buffer@, (y * w) as int),
                population <= y * w,
                forall|i: int, j: int|
                    0 <= i < w && 0 <= j < y ==> self.back_buffer@[j * w + i] == old(self)@.next_cell(i, j),
            decreases h - y,
        {
            proof {
                lemma_mul_bounds_step(y as int, w as int, h as int);
            }
            let mut x: usize = 0;
            while x < w
                invariant
                    old(self).wf(),
                    self.grid == old(self).grid,
                    self.config == old(self).config,
                    self.generation == old(self).generation,
                    self.back_buffer@.len() == old(self).back_buffer@.len(),
                    w == self.config.width,
                    h == self.config.height,
                    y < h,
                    x <= w,
                    y * w + x <= w * h,
                    population == live_prefix(self.back_buffer@, (y * w + x) as int),
                    population <= y * w + x,
                    forall|i: int, j: int|
                        0 <= i < w && 0 <= j < y ==> self.back_buffer@[j * w + i] == old(self)@.next_cell(i, j),
                    forall|i: int| 0 <= i < x ==> self.back_buffer@[y * w + i] == old(self)@.next_cell(i, y as int),
                decreases w - x,
            {
                proof {
                    lemma_row_major_bound(x as int, y as int, w as int, h as int);
                }
                let idx = y * w + x;
                let neighbors = self.count_neighbors(x, y);
                let current = self.grid[idx];
                let will_live = if current > 0 {
                    contains_u8(&self.config.survives, neighbors)
                } else {
                    contains_u8(&self.config.born, neighbors)
                };
                let new_cell: u8 = if will_live {
                    if current > 0 {
                        current.saturating_add(1)
                    } else {
                        1
                    }
                } else {
                    0
                };
                let ghost prev_back = self.back_buffer@;
                self.back_buffer.set(idx, new_cell);
                if will_live {
                    population = population + 1;
                }
                proof {
                    assert(self.back_buffer@[idx as int] == old(self)@.next_cell(
                        x as int,
                        y as int,
                    ));
                    lemma_live_prefix_agree(self.back_buffer@, prev_back, idx as int);
                    assert(live_prefix(self.back_buffer@, idx + 1) == live_prefix(
                        self.back_buffer@,
                        idx as int,
                    ) + b2i(new_cell > 0));
                    assert forall|i: int, j: int| 0 <= i < w && 0 <= j < y implies self
                        .back_buffer@[j * w + i] == old(self)@.next_cell(i, j) by {
                        lemma_row_major_bound(i, j, w as int, h as int);
                        lemma_row_major_distinct(w as int, h as int, x as int, y as int, i, j);
                    }
                    assert forall|i: int| 0 <= i < x + 1 implies self.back_buffer@[y * w + i]
                        == old(self)@.next_cell(i, y as int) by {
                        if i < x {
                            lemma_row_major_bound(i, y as int, w as int, h as int);
                            lemma_row_major_distinct(
                                w as int,
                                h as int,
                                x as int,
                                y as int,
                                i,
                                y as int,
                            );
                        }
                    }
                }
                x = x + 1;
            }
            proof {
                vstd::arithmetic::mul::lemma_mul_is_distributive_add_other_way(
                    w as int,
                    y as int,
                    1,
                );
            }
            y = y + 1;
        }
        proof {
            assert(y == h);
            assert(population == live_prefix(self.back_buffer@, (y * w) as int));
            assert(self.back_buffer@.len() == w * h);
            assert(h * w == w * h);
            assert(population == live_cells(self.back_buffer@));
        }
        core::mem::swap(&mut self.grid, &mut self.back_buffer);
        self.generation = self.generation + 1;
        self.population = population;
        proof {
            assert forall|x: int, y_: int|
                0 <= x < old(self)@.config.width && 0 <= y_ < old(self)@.config.height implies self@
                .cell(x, y_) == old(self)@.next_cell(x, y_) by {
                lemma_row_major_bound(
                    x,
                    y_,
                    old(self)@.config.width as int,
                    old(self)@.config.height as int,
                );
            }
        }
    }

    /// Recompute the cached population count from the current grid.
    fn update_population(&mut self)
        requires
            old(self).wf(),
        ensures
            final(self).wf(),
            final(self).grid == old(self).grid,
            final(self).back_buffer == old(self).back_buffer,
            final(self).config == old(self).config,
            final(self).generation == old(self).generation,
            final(self)@.population == live_cells(final(self)@.cells),
    {
        let len = self.grid.len();
        let mut count: usize = 0;
        let mut i: usize = 0;
        while i < len
            invariant
                len == self.grid@.len(),
                i <= len,
                count == live_prefix(self.grid@, i as int),
                count <= i,
            decreases len - i,
        {
            if self.grid[i] > 0 {
                count = count + 1;
            }
            i = i + 1;
        }
        self.population = count;
    }

    /// Get a reference to the raw grid data.
    pub fn grid(&self) -> (r: &[u8])
        ensures
            r@ == self@.cells,
    {
        self.grid.as_slice()
    }
}

/// Characters that mark a live cell in a text pattern.
pub open spec fn is_pattern_mark(c: char) -> bool {
    c == 'O' || c == '*' || c == '#'
}

/// The rows of a text pattern as character sequences.
pub open spec fn rows_view(pattern: Seq<&str>) -> Seq<Seq<char>> {
    pattern.map_values(|row: &str| row@)
}

/// Whether a text pattern marks `(column c, row r)` as alive.
pub open spec fn pattern_alive(rows: Seq<Seq<char>>, r: int, c: int) -> bool {
    0 <= r < rows.len() && 0 <= c < rows[r].len() && is_pattern_mark(rows[r][c])
}

/// The glider, the smallest pattern that travels across the grid.
pub open spec fn glider_rows() -> Seq<Seq<char>> {
    seq![".O."@, "..O"@, "OOO"@]
}

/// The Gosper glider gun, which emits a glider every 30 generations.
pub open spec fn glider_gun_rows() -> Seq<Seq<char>> {
    seq![
        "........................O..........."@,
        "......................O.O..........."@,
        "............OO......OO............OO"@,
        "...........O...O....OO............OO"@,
        "OO........O.....O...OO.............."@,
        "OO........O...O.OO....O.O..........."@,
        "..........O.....O.......O..........."@,
        "...........O...O...................."@,
        "............OO......................"@,
    ]
}

impl GameOfLife {
    /// Load a text pattern at the given offset: every cell covered by a
    /// pattern mark (`O`, `*` or `#`) becomes alive at age 1, every other
    /// cell keeps its state; the population count is recomputed.
    pub fn load_pattern(&mut self, pattern: &[&str], offset_x: usize, offset_y: usize)
        requires
            old(self).wf(),
            offset_y + pattern@.len() <= usize::MAX,
            forall|r: int| 0 <= r < pattern@.len() ==> offset_x + pattern@[r]@.len() <= usize::MAX,
        ensures
            final(self).wf(),
            final(self)@.config == old(self)@.config,
            final(self)@.generation == old(self)@.generation,
            forall|i: int, j: int|
                0 <= i < old(self)@.config.width && 0 <= j < old(self)@.config.height ==> final(self)@.cell(i, j) == if i >= offset_x && j >= offset_y && pattern_alive(
                    rows_view(pattern@),
                    j - offset_y,
                    i - offset_x,
                ) {
                    1u8
                } else {
                    old(self)@.cell(i, j)
                },
            final(self)@.population == live_cells(final(self)@.cells),
    {
        let ghost w = self.config.width as int;
        let ghost h = self.config.height as int;
        let ghost rows = rows_view(pattern@);
        let plen = pattern.len();
        let mut yi: usize = 0;
        while yi < plen
            invariant
                old(self).wf(),
                self.wf(),
                plen == pattern@.len(),
                yi <= plen,
                w == self.config.width as int,
                h == self.config.height as int,
                rows == rows_view(pattern@),
                self.config == old(self).config,
                self.generation == old(self).generation,
                offset_y + plen <= usize::MAX,
                forall|r: int| 0 <= r < plen ==> offset_x + pattern@[r]@.len() <= usize::MAX,
                forall|i: int, j: int|
                    0 <= i < w && 0 <= j < h ==> self@.cell(i, j) == if i >= offset_x && j
                        >= offset_y && j - offset_y < yi && pattern_alive(
                        rows,
                        j - offset_y,
                        i - offset_x,
                    ) {
                        1u8
                    } else {
                        old(self)@.cell(i, j)
                    },
            decreases plen - yi,
        {
            let row: &str = pattern[yi];
            let rlen = row.unicode_len();
            let mut xi: usize = 0;
            while xi < rlen
                invariant
                    old(self).wf(),
                    self.wf(),
                    plen == pattern@.len(),
                    yi < plen,
                    rlen == pattern@[yi as int]@.len(),
                    row == pattern@[yi as int],
                    xi <= rlen,
                    w == self.config.width as int,
                    h == self.config.height as int,
                    rows == rows_view(pattern@),
                    self.config == old(self).config,
                    self.generation == old(self).generation,
                    offset_y + plen <= usize::MAX,
                    forall|r: int| 0 <= r < plen ==> offset_x + pattern@[r]@.len() <= usize::MAX,
                    forall|i: int, j: int|
                        0 <= i < w && 0 <= j < h ==> self@.cell(i, j) == if i >= offset_x && j
                            >= offset_y && (j - offset_y < yi || (j - offset_y == yi && i - offset_x
                            < xi)) && pattern_alive(rows, j - offset_y, i - offset_x) {
                            1u8
                        } else {
                            old(self)@.cell(i, j)
                        },
                decreases rlen - xi,
            {
                let ch = row.get_char(xi);
                if ch == 'O' || ch == '*' || ch == '#' {
                    let px = offset_x + xi;
                    let py = offset_y + yi;
                    self.set_cell(px, py, 1);
                }
                xi = xi + 1;
            }
            yi = yi + 1;
        }
        proof {
            assert(rows.len() == plen);
        }
        let ghost mid = *self;
        self.update_population();
        proof {
            assert forall|i: int, j: int| 0 <= i < w && 0 <= j < h implies self@.cell(i, j) == (
            if i >= offset_x && j >= offset_y && pattern_alive(rows, j - offset_y, i - offset_x) {
                1u8
            } else {
                old(self)@.cell(i, j)
            }) by {
                assert(self@.cell(i, j) == mid@.cell(i, j));
                if i >= offset_x && j >= offset_y && pattern_alive(rows, j - offset_y, i - offset_x) {
                    assert(j - offset_y < plen);
                }
            }
        }
    }

    /// Load a glider pattern at the center.
    pub fn load_glider(&mut self)
        requires
            old(self).wf(),
        ensures
            final(self).wf(),
            final(self)@.config == old(self)@.config,
            final(self)@.generation == old(self)@.generation,
            forall|i: int, j: int|
                0 <= i < old(self)@.config.width && 0 <= j < old(self)@.config.height ==> final(self)@.cell(i, j) == if i >= old(self)@.config.width / 2 && j >= old(self)@.config.height / 2 && pattern_alive(
                    glider_rows(),
                    j - old(self)@.config.height / 2,
                    i - old(self)@.config.width / 2,
                ) {
                    1u8
                } else {
                    old(self)@.cell(i, j)
                },
            final(self)@.population == live_cells(final(self)@.cells),
    {
        let cx = self.config.width / 2;
        let cy = self.config.height / 2;
        let pattern = vec![".O.", "..O", "OOO"];
        proof {
            reveal_strlit(".O.");
            reveal_strlit("..O");
            reveal_strlit("OOO");
            assert(rows_view(pattern@) =~= glider_rows());
        }
        self.load_pattern(pattern.as_slice(), cx, cy);
    }

    /// Load a Gosper glider gun pattern near the top-left corner.
    pub fn load_glider_gun(&mut self)
        requires
            old(self).wf(),
        ensures
            final(self).wf(),
            final(self)@.config == old(self)@.config,
            final(self)@.generation == old(self)@.generation,
            forall|i: int, j: int|
                0 <= i < old(self)@.config.width && 0 <= j < old(self)@.config.height ==> final(self)@.cell(i, j) == if i >= 10 && j >= 10 && pattern_alive(
                    glider_gun_rows(),
                    j - 10,
                    i - 10,
                ) {
                    1u8
                } else {
                    old(self)@.cell(i, j)
                },
            final(self)@.population == live_cells(final(self)@.cells),
    {
        let pattern = vec![
            "........................O...........",
            "......................O.O...........",
            "............OO......OO............OO",
            "...........O...O....OO............OO",
            "OO........O.....O...OO..............",
            "OO........O...O.OO....O.O...........",
            "..........O.....O.......O...........",
            "...........O...O....................",
            "............OO......................",
        ];
        proof {
            reveal_strlit("........................O...........");
            reveal_strlit("......................O.O...........");
            reveal_strlit("............OO......OO............OO");
            reveal_strlit("...........O...O....OO............OO");
            reveal_strlit("OO........O.....O...OO..............");
            reveal_strlit("OO........O...O.OO....O.O...........");
            reveal_strlit("..........O.....O.......O...........");
            reveal_strlit("...........O...O....................");
            reveal_strlit("............OO......................");
            assert(rows_view(pattern@) =~= glider_gun_rows());
        }
        self.load_pattern(pattern.as_slice(), 10, 10);
    }
}

/// `y < h` gives `(y + 1) * w <= h * w` and keeps row starts in bounds.
proof fn lemma_mul_bounds_step(y: int, w: int, h: int)
    requires
        0 <= y < h,
        0 <= w,
    ensures
        y * w + w <= w * h,
        y * w >= 0,
{
    assert(y * w + w <= w * h) by (nonlinear_arith)
        requires
            0 <= y < h,
            0 <= w,
    ;
    assert(y * w >= 0) by (nonlinear_arith)
        requires
            0 <= y,
            0 <= w,
    ;
}

/// A row-major index `y * w + x` is within a `w * h` grid.
proof fn lemma_row_major_bound(x: int, y: int, w: int, h: int)
    requires
        0 <= x < w,
        0 <= y < h,
    ensures
        0 <= y * w + x < w * h,
    decreases h,
{
    assert(y * w + x < w * h) by (nonlinear_arith)
        requires
            0 <= x < w,
            0 <= y < h,
    ;
    assert(y * w >= 0) by (nonlinear_arith)
        requires
            y >= 0,
            w > 0,
    ;
}

/// Distinct coordinates give distinct row-major indices.
proof fn lemma_row_major_distinct(w: int, h: int, x: int, y: int, i: int, j: int)
    requires
        0 <= x < w,
        0 <= y < h,
        0 <= i < w,
        0 <= j < h,
        !(i == x && j == y),
    ensures
        j * w + i != y * w + x,
{
    if j != y {
        assert(j * w + i != y * w + x) by (nonlinear_arith)
            requires
                0 <= i < w,
                0 <= x < w,
                j != y,
        ;
    }
}

} // verus!
