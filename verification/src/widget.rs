//! Widget renderers: each turns live telemetry values (state of charge,
//! per-core usage, the time of day) into a small row-major brightness
//! bitmap of fixed shape, ready to be overlaid on the frame.

use vstd::prelude::*;

verus! {

/// Brightness of a fully lit cell.
pub const ON_FULL: u8 = 120;

/// Brightness of a dimly lit cell.
pub const ON_DIM: u8 = 68;

/// Brightness of a dark cell.
pub const OFF: u8 = 0;

/// A widget's footprint in cells: `x` columns wide, `y` rows high.
#[derive(Clone, Copy, PartialEq, Eq, Structural, Debug)]
pub struct Shape {
    pub x: usize,
    pub y: usize,
}

/// A standard set of instructions for widgets that are re-rendered from
/// telemetry values each tick.
pub trait UpdatableWidget {
    /// The bitmap the widget currently shows, row-major in its own
    /// coordinate space.
    spec fn spec_matrix(&self) -> Seq<u8>;

    /// The widget's footprint.
    spec fn spec_shape(&self) -> Shape;

    fn get_matrix(&self) -> (m: &Vec<u8>)
        ensures
            m@ == self.spec_matrix(),
    ;

    fn get_shape(&self) -> (s: Shape)
        ensures
            s == self.spec_shape(),
    ;
}

/// The widget's bitmap fills its footprint exactly.
pub open spec fn widget_fits<W: UpdatableWidget>(w: &W) -> bool {
    w.spec_matrix().len() == w.spec_shape().x * w.spec_shape().y
}

/// The battery outline (9x4): a full-brightness frame with a terminal nub
/// on the right and an empty interior.
pub open spec fn bat_frame() -> Seq<u8> {
    seq![
        ON_FULL, ON_FULL, ON_FULL, ON_FULL, ON_FULL, ON_FULL, ON_FULL, ON_FULL, OFF,
        ON_FULL, OFF, OFF, OFF, OFF, OFF, OFF, ON_FULL, ON_FULL,
        ON_FULL, OFF, OFF, OFF, OFF, OFF, OFF, ON_FULL, ON_FULL,
        ON_FULL, ON_FULL, ON_FULL, ON_FULL, ON_FULL, ON_FULL, ON_FULL, ON_FULL, OFF,
    ]
}

/// How many of the six interior bar segments are lit for a state of charge
/// given in hundredths of a percent: the nearest integer to
/// `charge * 6 / 100` percentwise.
pub open spec fn spec_num_illum(soc: int) -> int {
    (soc * 6 + 5000) / 10000
}

/// One cell of the battery bitmap: the two interior rows carry the dim
/// fill bar up to the lit segment count, the blinking charge indicator
/// sits just past the bar while charging below 99%, and every other cell
/// shows the outline.
pub open spec fn battery_cell(soc: int, charging: bool, ind: bool, k: int) -> u8 {
    let n = spec_num_illum(soc);
    if charging && soc < 9900 && (k == 9 + n || k == 18 + n) {
        if ind {
            ON_DIM
        } else {
            OFF
        }
    } else if (10 <= k <= 15 && k - 9 <= n) || (19 <= k <= 24 && k - 18 <= n) {
        ON_DIM
    } else {
        bat_frame()[k]
    }
}

/// The whole battery bitmap for one update.
pub open spec fn battery_render(soc: int, charging: bool, ind: bool) -> Seq<u8> {
    Seq::new(36, |k: int| battery_cell(soc, charging, ind, k))
}

/// Displays the charge left in the battery: the outline, a six-segment
/// fill bar, and a blinking indicator while charging.
pub struct BatteryWidget {
    matrix: Vec<u8>,
    shape: Shape,
    chrg_ind: bool,
}

impl BatteryWidget {
    /// The current phase of the blinking charge indicator.
    pub closed spec fn spec_indicator(&self) -> bool {
        self.chrg_ind
    }

    pub fn new() -> (w: BatteryWidget)
        ensures
            w.spec_shape() == (Shape { x: 9, y: 4 }),
            w.spec_matrix() == Seq::<u8>::empty(),
            !w.spec_indicator(),
    {
        BatteryWidget { matrix: Vec::new(), chrg_ind: false, shape: Shape { x: 9, y: 4 } }
    }

    /// Re-render from a state of charge given in hundredths of a percent
    /// (0 to 10000) and the charging flag. While charging below 99% the
    /// indicator segment alternates between dim and dark on each update.
    pub fn update(&mut self, soc: u32, charging: bool)
        requires
            soc <= 10000,
        ensures
            final(self).spec_shape() == old(self).spec_shape(),
            final(self).spec_matrix() == battery_render(
                soc as int,
                charging,
                old(self).spec_indicator(),
            ),
            final(self).spec_indicator() == if charging && soc < 9900 {
                !old(self).spec_indicator()
            } else {
                old(self).spec_indicator()
            },
    {
        let mut m: Vec<u8> = vec![
            ON_FULL, ON_FULL, ON_FULL, ON_FULL, ON_FULL, ON_FULL, ON_FULL, ON_FULL, OFF,
            ON_FULL, OFF, OFF, OFF, OFF, OFF, OFF, ON_FULL, ON_FULL,
            ON_FULL, OFF, OFF, OFF, OFF, OFF, OFF, ON_FULL, ON_FULL,
            ON_FULL, ON_FULL, ON_FULL, ON_FULL, ON_FULL, ON_FULL, ON_FULL, ON_FULL, OFF,
        ];
        assert(m@ =~= bat_frame());
        let num_illum: usize = ((soc * 6 + 5000) / 10000) as usize;
        assert(num_illum == spec_num_illum(soc as int));
        assert(num_illum <= 6);
        let mut i: usize = 1;
        while i < 7
            invariant
                1 <= i <= 7,
                num_illum == spec_num_illum(soc as int),
                num_illum <= 6,
                m@.len() == 36,
                forall|k: int|
                    0 <= k < 36 ==> m@[k] == if (10 <= k <= 15 && k - 9 <= num_illum && k - 9 < i)
                        || (19 <= k <= 24 && k - 18 <= num_illum && k - 18 < i) {
                        ON_DIM
                    } else {
                        bat_frame()[k]
                    },
            decreases 7 - i,
        {
            if i <= num_illum {
                m.set(9 + i, ON_DIM);
                m.set(18 + i, ON_DIM);
            }
            i = i + 1;
        }
        let ind = self.chrg_ind;
        if charging && soc < 9900 {
            let v = if ind {
                ON_DIM
            } else {
                OFF
            };
            m.set(9 + num_illum, v);
            m.set(18 + num_illum, v);
            self.chrg_ind = !ind;
        }
        assert(m@ =~= battery_render(soc as int, charging, ind));
        self.matrix = m;
    }
}

/// One cell of the merged CPU bitmap (8x8): each column is one pair of
/// logical cores, their usages averaged; a cell lights when the average
/// reaches the cell's level, each of the eight rows standing for 10
/// percentage points, the bottom row for zero.
pub open spec fn merged_cpu_cell(usages: Seq<u8>, idy: int, idx: int) -> u8 {
    if idx < usages.len() / 2 && (usages[2 * idx] + usages[2 * idx + 1]) / 2 >= (7 - idy) * 10 {
        ON_FULL
    } else {
        OFF
    }
}

/// The merged CPU bitmap for one update.
pub open spec fn merged_cpu_render(usages: Seq<u8>) -> Seq<u8> {
    Seq::new(64, |k: int| merged_cpu_cell(usages, k / 8, k % 8))
}

/// One cell of a per-core bar, 9 cells wide: cells left of the bar's edge
/// are fully lit, and the cell at the edge carries the fractional fill as
/// a proportional brightness.
pub open spec fn percore_cpu_cell(u: int, x: int) -> u8 {
    let full = u * 9 / 100;
    let rem = u * 9 % 100;
    if x < full {
        ON_FULL
    } else if x == full {
        (rem * ON_FULL / 100) as u8
    } else {
        OFF
    }
}

/// The per-core CPU bitmap for one update: one row per core.
pub open spec fn percore_cpu_render(usages: Seq<u8>) -> Seq<u8> {
    Seq::new(9 * usages.len(), |k: int| percore_cpu_cell(usages[k / 9] as int, k % 9))
}

/// The CPU bitmap for one update, by mode.
pub open spec fn cpu_render(usages: Seq<u8>, merge: bool) -> Seq<u8> {
    if merge {
        merged_cpu_render(usages)
    } else {
        percore_cpu_render(usages)
    }
}

/// Displays the usage of every CPU core: either one bar per core, one row
/// each, or pairs of cores merged into eight quantized columns.
pub struct AllCPUsWidget {
    cpu_usages: Vec<u8>,
    merge_threads: bool,
    matrix: Vec<u8>,
    shape: Shape,
}

impl AllCPUsWidget {
    /// Construction-time facts the widget keeps: the footprint matches
    /// the mode and the core count, pairs merge evenly into at most eight
    /// columns, and the per-core bitmap's length fits the machine.
    pub closed spec fn wf(&self) -> bool {
        &&& self.shape == if self.merge_threads {
            Shape { x: 8, y: 8 }
        } else {
            Shape { x: 9, y: self.cpu_usages@.len() as usize }
        }
        &&& (self.merge_threads ==> self.cpu_usages@.len() % 2 == 0 && self.cpu_usages@.len()
            <= 16)
        &&& 9 * self.cpu_usages@.len() <= usize::MAX
    }

    /// The usage snapshot of the last update, one value per core.
    pub closed spec fn spec_usages(&self) -> Seq<u8> {
        self.cpu_usages@
    }

    /// Whether the widget merges core pairs into one column each.
    pub closed spec fn spec_merge(&self) -> bool {
        self.merge_threads
    }

    /// Set up for `num_cpus` cores, with the given mode. In merged mode
    /// the cores must pair off evenly into the eight columns.
    pub fn new(num_cpus: usize, merge_threads: bool) -> (w: AllCPUsWidget)
        requires
            merge_threads ==> num_cpus % 2 == 0 && num_cpus <= 16,
            9 * num_cpus <= usize::MAX,
        ensures
            w.wf(),
            w.spec_merge() == merge_threads,
            w.spec_usages() == Seq::new(num_cpus as nat, |i: int| 0u8),
            w.spec_shape() == if merge_threads {
                Shape { x: 8, y: 8 }
            } else {
                Shape { x: 9, y: num_cpus }
            },
            w.spec_matrix() == Seq::<u8>::empty(),
    {
        let mut zeros: Vec<u8> = Vec::new();
        while zeros.len() < num_cpus
            invariant
                zeros@.len() <= num_cpus,
                forall|k: int| 0 <= k < zeros@.len() ==> zeros@[k] == 0u8,
            decreases num_cpus - zeros@.len(),
        {
            zeros.push(0);
        }
        assert(zeros@ =~= Seq::new(num_cpus as nat, |i: int| 0u8));
        AllCPUsWidget {
            shape: if merge_threads {
                Shape { x: 8, y: 8 }
            } else {
                Shape { x: 9, y: num_cpus }
            },
            cpu_usages: zeros,
            merge_threads,
            matrix: Vec::new(),
        }
    }

    /// Re-render from a fresh usage snapshot, one value per core in core
    /// order, each a percentage from 0 to 100.
    pub fn update(&mut self, usages: &Vec<u8>)
        requires
            old(self).wf(),
            usages@.len() == old(self).spec_usages().len(),
            forall|k: int| 0 <= k < usages@.len() ==> usages@[k] <= 100,
        ensures
            final(self).wf(),
            final(self).spec_shape() == old(self).spec_shape(),
            final(self).spec_merge() == old(self).spec_merge(),
            final(self).spec_usages() == usages@,
            final(self).spec_matrix() == cpu_render(usages@, old(self).spec_merge()),
    {
        let n = usages.len();
        let mut snapshot: Vec<u8> = Vec::new();
        let mut k: usize = 0;
        while k < n
            invariant
                k <= n,
                n == usages@.len(),
                snapshot@ == usages@.take(k as int),
            decreases n - k,
        {
            snapshot.push(usages[k]);
            k = k + 1;
            assert(usages@.take(k as int) == usages@.take(k - 1).push(usages@[k - 1]));
        }
        assert(usages@.take(n as int) == usages@);
        self.cpu_usages = snapshot;

        if self.merge_threads {
            let half = n / 2;
            let mut m: Vec<u8> = Vec::new();
            while m.len() < 64
                invariant
                    m@.len() <= 64,
                    forall|k0: int| 0 <= k0 < m@.len() ==> m@[k0] == OFF,
                decreases 64 - m@.len(),
            {
                m.push(OFF);
            }
            for idy in 0..8usize
                invariant
                    half == usages@.len() / 2,
                    half * 2 <= usages@.len(),
                    half <= 8,
                    usages@.len() == self.cpu_usages@.len(),
                    usages@ == self.cpu_usages@,
                    forall|k0: int| 0 <= k0 < usages@.len() ==> usages@[k0] <= 100,
                    m@.len() == 64,
                    forall|k0: int|
                        0 <= k0 < 64 && k0 / 8 < idy ==> m@[k0] == merged_cpu_cell(
                            usages@,
                            k0 / 8,
                            k0 % 8,
                        ),
                    forall|k0: int| 0 <= k0 < 64 && k0 / 8 >= idy ==> m@[k0] == OFF,
            {
                for idx in 0..half
                    invariant
                        idy < 8,
                        half == usages@.len() / 2,
                        half * 2 <= usages@.len(),
                        half <= 8,
                        usages@.len() == self.cpu_usages@.len(),
                        usages@ == self.cpu_usages@,
                        forall|k0: int| 0 <= k0 < usages@.len() ==> usages@[k0] <= 100,
                        m@.len() == 64,
                        forall|k0: int|
                            0 <= k0 < 64 && k0 / 8 < idy ==> m@[k0] == merged_cpu_cell(
                                usages@,
                                k0 / 8,
                                k0 % 8,
                            ),
                        forall|k0: int|
                            0 <= k0 < 64 && k0 / 8 == idy && k0 % 8 < idx ==> m@[k0]
                                == merged_cpu_cell(usages@, k0 / 8, k0 % 8),
                        forall|k0: int|
                            0 <= k0 < 64 && (k0 / 8 > idy || (k0 / 8 == idy && k0 % 8 >= idx))
                                ==> m@[k0] == OFF,
                {
                    let a = self.cpu_usages[2 * idx];
                    let b = self.cpu_usages[2 * idx + 1];
                    let usage = (a + b) / 2;
                    let inverse_y = 7 - idy;
                    if usage as usize >= inverse_y * 10 {
                        m.set(idy * 8 + idx, ON_FULL);
                    }
                    proof {
                        let pos = (idy * 8 + idx) as int;
                        assert(pos / 8 == idy && pos % 8 == idx);
                        assert(m@[pos] == merged_cpu_cell(usages@, idy as int, idx as int));
                    }
                }
            }
            assert(m@ =~= merged_cpu_render(usages@));
            self.matrix = m;
        } else {
            let total = 9 * n;
            let mut m: Vec<u8> = Vec::new();
            while m.len() < total
                invariant
                    m@.len() <= total,
                    forall|k0: int| 0 <= k0 < m@.len() ==> m@[k0] == OFF,
                decreases total - m@.len(),
            {
                m.push(OFF);
            }
            for y in 0..n
                invariant
                    n == usages@.len(),
                    total == 9 * n,
                    usages@.len() == self.cpu_usages@.len(),
                    usages@ == self.cpu_usages@,
                    forall|k0: int| 0 <= k0 < usages@.len() ==> usages@[k0] <= 100,
                    m@.len() == total,
                    forall|k0: int|
                        0 <= k0 < total && k0 / 9 < y ==> m@[k0] == percore_cpu_cell(
                            usages@[k0 / 9] as int,
                            k0 % 9,
                        ),
                    forall|k0: int| 0 <= k0 < total && k0 / 9 >= y ==> m@[k0] == OFF,
            {
                let u = self.cpu_usages[y] as usize;
                let full = u * 9 / 100;
                let rem = u * 9 % 100;
                for x in 0..9usize
                    invariant
                        y < n,
                        n == usages@.len(),
                        total == 9 * n,
                        usages@.len() == self.cpu_usages@.len(),
                        usages@ == self.cpu_usages@,
                        forall|k0: int| 0 <= k0 < usages@.len() ==> usages@[k0] <= 100,
                        m@.len() == total,
                        u == usages@[y as int],
                        u <= 100,
                        full == u * 9 / 100,
                        rem == u * 9 % 100,
                        forall|k0: int|
                            0 <= k0 < total && k0 / 9 < y ==> m@[k0] == percore_cpu_cell(
                                usages@[k0 / 9] as int,
                                k0 % 9,
                            ),
                        forall|k0: int|
                            0 <= k0 < total && k0 / 9 == y && k0 % 9 < x ==> m@[k0]
                                == percore_cpu_cell(usages@[k0 / 9] as int, k0 % 9),
                        forall|k0: int|
                            0 <= k0 < total && (k0 / 9 > y || (k0 / 9 == y && k0 % 9 >= x))
                                ==> m@[k0] == OFF,
                {
                    proof {
                        assert((y as int) * 9 + (x as int) < 9 * (n as int)) by (nonlinear_arith)
                            requires
                                0 <= (y as int) < (n as int),
                                0 <= (x as int) < 9,
                        ;
                        assert(((y * 9 + x) as int) / 9 == y && ((y * 9 + x) as int) % 9 == x);
                    }
                    if x < full {
                        m.set(y * 9 + x, ON_FULL);
                    } else if x == full {
                        m.set(y * 9 + x, ((rem * 120) / 100) as u8);
                    }
                    proof {
                        let pos = (y * 9 + x) as int;
                        assert(m@[pos] == percore_cpu_cell(usages@[y as int] as int, x as int));
                    }
                }
            }
            assert(m@ =~= percore_cpu_render(usages@));
            self.matrix = m;
        }
    }
}

impl UpdatableWidget for AllCPUsWidget {
    closed spec fn spec_matrix(&self) -> Seq<u8> {
        self.matrix@
    }

    closed spec fn spec_shape(&self) -> Shape {
        self.shape
    }

    fn get_matrix(&self) -> (m: &Vec<u8>) {
        &self.matrix
    }

    fn get_shape(&self) -> (s: Shape) {
        self.shape
    }
}

/// The 3x5 glyph for one decimal digit, row-major; any other value shows
/// the zero glyph.
pub open spec fn digit_glyph(d: int) -> Seq<u8> {
    if d == 1 {
        seq![
            OFF, OFF, ON_FULL,
            OFF, ON_DIM, ON_FULL,
            OFF, OFF, ON_FULL,
            OFF, OFF, ON_FULL,
            OFF, OFF, ON_FULL,
        ]
    } else if d == 2 {
        seq![
            ON_FULL, ON_FULL, ON_FULL,
            OFF, OFF, ON_FULL,
            ON_FULL, ON_FULL, ON_FULL,
            ON_FULL, OFF, OFF,
            ON_FULL, ON_FULL, ON_FULL,
        ]
    } else if d == 3 {
        seq![
            ON_FULL, ON_FULL, ON_FULL,
            OFF, OFF, ON_FULL,
            ON_FULL, ON_FULL, OFF,
            OFF, OFF, ON_FULL,
            ON_FULL, ON_FULL, ON_FULL,
        ]
    } else if d == 4 {
        seq![
            ON_FULL, OFF, ON_FULL,
            ON_FULL, OFF, ON_FULL,
            ON_FULL, ON_FULL, ON_FULL,
            OFF, OFF, ON_FULL,
            OFF, OFF, ON_FULL,
        ]
    } else if d == 5 {
        seq![
            ON_FULL, ON_FULL, ON_FULL,
            ON_FULL, OFF, OFF,
            ON_FULL, ON_FULL, ON_FULL,
            OFF, OFF, ON_FULL,
            ON_FULL, ON_FULL, ON_FULL,
        ]
    } else if d == 6 {
        seq![
            OFF, ON_FULL, ON_DIM,
            ON_FULL, OFF, OFF,
            ON_FULL, ON_FULL, ON_FULL,
            ON_FULL, OFF, ON_FULL,
            ON_FULL, ON_FULL, ON_FULL,
        ]
    } else if d == 7 {
        seq![
            ON_FULL, ON_FULL, ON_FULL,
            ON_DIM, OFF, ON_FULL,
            OFF, OFF, ON_FULL,
            OFF, ON_FULL, OFF,
            OFF, ON_FULL, OFF,
        ]
    } else if d == 8 {
        seq![
            ON_FULL, ON_FULL, ON_FULL,
            ON_FULL, OFF, ON_FULL,
            ON_FULL, ON_FULL, ON_FULL,
            ON_FULL, OFF, ON_FULL,
            ON_FULL, ON_FULL, ON_FULL,
        ]
    } else if d == 9 {
        seq![
            ON_FULL, ON_FULL, ON_FULL,
            ON_FULL, OFF, ON_FULL,
            ON_FULL, ON_FULL, ON_FULL,
            OFF, OFF, ON_FULL,
            ON_DIM, ON_FULL, OFF,
        ]
    } else {
        seq![
            OFF, ON_FULL, OFF,
            ON_FULL, OFF, ON_FULL,
            ON_FULL, OFF, ON_FULL,
            ON_FULL, OFF, ON_FULL,
            OFF, ON_FULL, OFF,
        ]
    }
}

/// One cell of the 9x5 band that shows a two-digit number: columns 1-3
/// carry the tens digit's glyph, columns 5-7 the ones digit's, and the
/// other columns stay dark.
pub open spec fn number_cell(num: int, k: int) -> u8 {
    let row = k / 9;
    let col = k % 9;
    if 1 <= col <= 3 {
        digit_glyph(num / 10)[row * 3 + (col - 1)]
    } else if 5 <= col <= 7 {
        digit_glyph(num % 10)[row * 3 + (col - 5)]
    } else {
        OFF
    }
}

/// The full 9x5 band for a two-digit number.
pub open spec fn number_render(num: int) -> Seq<u8> {
    Seq::new(45, |k: int| number_cell(num, k))
}

/// The whole clock bitmap (9x11): the hour's band, one blank row, the
/// minute's band.
pub open spec fn clock_render(hour: int, minute: int) -> Seq<u8> {
    number_render(hour) + Seq::new(9, |k: int| OFF) + number_render(minute)
}

/// Displays the time of day: hour above minute, two digits each.
pub struct ClockWidget {
    matrix: Vec<u8>,
}

impl ClockWidget {
    pub fn new() -> (w: ClockWidget)
        ensures
            w.spec_matrix() == Seq::<u8>::empty(),
            w.spec_shape() == (Shape { x: 9, y: 11 }),
    {
        ClockWidget { matrix: Vec::new() }
    }

    /// The 3x5 glyph of one decimal digit.
    pub fn render_digit(num: u32) -> (g: Vec<u8>)
        ensures
            g@ == digit_glyph(num as int),
    {
        match num {
            1 => vec![
                OFF, OFF, ON_FULL,
                OFF, ON_DIM, ON_FULL,
                OFF, OFF, ON_FULL,
                OFF, OFF, ON_FULL,
                OFF, OFF, ON_FULL,
            ],
            2 => vec![
                ON_FULL, ON_FULL, ON_FULL,
                OFF, OFF, ON_FULL,
                ON_FULL, ON_FULL, ON_FULL,
                ON_FULL, OFF, OFF,
                ON_FULL, ON_FULL, ON_FULL,
            ],
            3 => vec![
                ON_FULL, ON_FULL, ON_FULL,
                OFF, OFF, ON_FULL,
                ON_FULL, ON_FULL, OFF,
                OFF, OFF, ON_FULL,
                ON_FULL, ON_FULL, ON_FULL,
            ],
            4 => vec![
                ON_FULL, OFF, ON_FULL,
                ON_FULL, OFF, ON_FULL,
                ON_FULL, ON_FULL, ON_FULL,
                OFF, OFF, ON_FULL,
                OFF, OFF, ON_FULL,
            ],
            5 => vec![
                ON_FULL, ON_FULL, ON_FULL,
                ON_FULL, OFF, OFF,
                ON_FULL, ON_FULL, ON_FULL,
                OFF, OFF, ON_FULL,
                ON_FULL, ON_FULL, ON_FULL,
            ],
            6 => vec![
                OFF, ON_FULL, ON_DIM,
                ON_FULL, OFF, OFF,
                ON_FULL, ON_FULL, ON_FULL,
                ON_FULL, OFF, ON_FULL,
                ON_FULL, ON_FULL, ON_FULL,
            ],
            7 => vec![
                ON_FULL, ON_FULL, ON_FULL,
                ON_DIM, OFF, ON_FULL,
                OFF, OFF, ON_FULL,
                OFF, ON_FULL, OFF,
                OFF, ON_FULL, OFF,
            ],
            8 => vec![
                ON_FULL, ON_FULL, ON_FULL,
                ON_FULL, OFF, ON_FULL,
                ON_FULL, ON_FULL, ON_FULL,
                ON_FULL, OFF, ON_FULL,
                ON_FULL, ON_FULL, ON_FULL,
            ],
            9 => vec![
                ON_FULL, ON_FULL, ON_FULL,
                ON_FULL, OFF, ON_FULL,
                ON_FULL, ON_FULL, ON_FULL,
                OFF, OFF, ON_FULL,
                ON_DIM, ON_FULL, OFF,
            ],
            _ => vec![
                OFF, ON_FULL, OFF,
                ON_FULL, OFF, ON_FULL,
                ON_FULL, OFF, ON_FULL,
                ON_FULL, OFF, ON_FULL,
                OFF, ON_FULL, OFF,
            ],
        }
    }

    /// The 9x5 band for a two-digit number: tens digit left, ones digit
    /// right, a dark column between and on either side.
    pub fn render_number(num: u32) -> (band: Vec<u8>)
        ensures
            band@ == number_render(num as int),
    {
        let first_digit = Self::render_digit(num / 10);
        let second_digit = Self::render_digit(num % 10);
        assert(first_digit@.len() == 15);
        assert(second_digit@.len() == 15);
        let mut band: Vec<u8> = Vec::new();
        let mut idx: usize = 0;
        while idx < 45
            invariant
                idx <= 45,
                first_digit@ == digit_glyph(num as int / 10),
                second_digit@ == digit_glyph(num as int % 10),
                first_digit@.len() == 15,
                second_digit@.len() == 15,
                band@.len() == idx,
                forall|k: int| 0 <= k < idx ==> band@[k] == number_cell(num as int, k),
            decreases 45 - idx,
        {
            let col = idx % 9;
            let cell = if col >= 1 && col <= 3 {
                first_digit[(idx / 9) * 3 + col - 1]
            } else if col >= 5 && col <= 7 {
                second_digit[(idx / 9) * 3 + col - 5]
            } else {
                OFF
            };
            band.push(cell);
            idx = idx + 1;
        }
        assert(band@ =~= number_render(num as int));
        band
    }

    /// Re-render from the time of day.
    pub fn update(&mut self, hour: u32, minute: u32)
        ensures
            final(self).spec_matrix() == clock_render(hour as int, minute as int),
            final(self).spec_shape() == old(self).spec_shape(),
    {
        let mut m = Self::render_number(hour);
        let mut k: usize = 0;
        while k < 9
            invariant
                k <= 9,
                m@ == number_render(hour as int) + Seq::new(k as nat, |j: int| OFF),
            decreases 9 - k,
        {
            m.push(OFF);
            k = k + 1;
            assert(Seq::new(k as nat, |j: int| OFF) == Seq::new((k - 1) as nat, |j: int| OFF).push(
                OFF,
            ));
        }
        let mut second = Self::render_number(minute);
        m.append(&mut second);
        assert(m@ =~= clock_render(hour as int, minute as int));
        self.matrix = m;
    }
}

impl UpdatableWidget for ClockWidget {
    closed spec fn spec_matrix(&self) -> Seq<u8> {
        self.matrix@
    }

    closed spec fn spec_shape(&self) -> Shape {
        Shape { x: 9, y: 11 }
    }

    fn get_matrix(&self) -> (m: &Vec<u8>) {
        &self.matrix
    }

    fn get_shape(&self) -> (s: Shape) {
        Shape { x: 9, y: 11 }
    }
}

impl UpdatableWidget for BatteryWidget {
    closed spec fn spec_matrix(&self) -> Seq<u8> {
        self.matrix@
    }

    closed spec fn spec_shape(&self) -> Shape {
        self.shape
    }

    fn get_matrix(&self) -> (m: &Vec<u8>) {
        &self.matrix
    }

    fn get_shape(&self) -> (s: Shape) {
        self.shape
    }
}

} // verus!
