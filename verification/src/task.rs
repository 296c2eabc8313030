use vstd::prelude::*;
use crate::color::Rgba;
use crate::utils::MAX_TIME;

verus! {

/// The five amplifiers of the jammer, named by the band each one covers.
#[derive(Clone, Copy, PartialEq, Eq, Debug, Structural)]
pub enum Amplifier {
    A20_500,
    A500_1000,
    A960_1215,
    A1000_2500,
    A2400_6000,
}

impl Amplifier {
    /// The opaque colour in which the amplifier, its zone and its tasks are drawn.
    pub open spec fn spec_color(self) -> Rgba {
        match self {
            Amplifier::A20_500 => Rgba { r: 0, g: 187, b: 221, a: 255 },
            Amplifier::A500_1000 => Rgba { r: 255, g: 163, b: 0, a: 255 },
            Amplifier::A960_1215 => Rgba { r: 124, g: 127, b: 171, a: 255 },
            Amplifier::A1000_2500 => Rgba { r: 0, g: 171, b: 142, a: 255 },
            Amplifier::A2400_6000 => Rgba { r: 174, g: 37, b: 115, a: 255 },
        }
    }

    /// Lower end of the amplifier's band, in MHz.
    pub open spec fn spec_freq_start(self) -> u32 {
        match self {
            Amplifier::A20_500 => 20,
            Amplifier::A500_1000 => 500,
            Amplifier::A960_1215 => 960,
            Amplifier::A1000_2500 => 1000,
            Amplifier::A2400_6000 => 2400,
        }
    }

    /// Upper end of the amplifier's band, in MHz.
    pub open spec fn spec_freq_end(self) -> u32 {
        match self {
            Amplifier::A20_500 => 500,
            Amplifier::A500_1000 => 1000,
            Amplifier::A960_1215 => 1215,
            Amplifier::A1000_2500 => 2500,
            Amplifier::A2400_6000 => 6000,
        }
    }

    /// The text that names the amplifier on the plan.
    pub open spec fn spec_label(self) -> Seq<char> {
        match self {
            Amplifier::A20_500 => "Amplifier 20-500MHz"@,
            Amplifier::A500_1000 => "Amplifier 500-1000MHz"@,
            Amplifier::A960_1215 => "Amplifier 960-1215MHz"@,
            Amplifier::A1000_2500 => "Amplifier 1000-2500MHz"@,
            Amplifier::A2400_6000 => "Amplifier 2400-6000MHz"@,
        }
    }

    /// The amplifier's colour.
    pub fn color(&self) -> (c: Rgba)
        ensures
            c == self.spec_color(),
    {
        match self {
            Amplifier::A20_500 => Rgba::from_rgb(0, 187, 221),
            Amplifier::A500_1000 => Rgba::from_rgb(255, 163, 0),
            Amplifier::A960_1215 => Rgba::from_rgb(124, 127, 171),
            Amplifier::A1000_2500 => Rgba::from_rgb(0, 171, 142),
            Amplifier::A2400_6000 => Rgba::from_rgb(174, 37, 115),
        }
    }

    /// The amplifier's band as (lower end, upper end), in MHz.
    pub fn freq_range(&self) -> (res: (u32, u32))
        ensures
            res == (self.spec_freq_start(), self.spec_freq_end()),
    {
        match self {
            Amplifier::A20_500 => (20, 500),
            Amplifier::A500_1000 => (500, 1000),
            Amplifier::A960_1215 => (960, 1215),
            Amplifier::A1000_2500 => (1000, 2500),
            Amplifier::A2400_6000 => (2400, 6000),
        }
    }

    /// The amplifier's label.
    pub fn label(&self) -> (s: &'static str)
        ensures
            s@ == self.spec_label(),
    {
        match self {
            Amplifier::A20_500 => "Amplifier 20-500MHz",
            Amplifier::A500_1000 => "Amplifier 500-1000MHz",
            Amplifier::A960_1215 => "Amplifier 960-1215MHz",
            Amplifier::A1000_2500 => "Amplifier 1000-2500MHz",
            Amplifier::A2400_6000 => "Amplifier 2400-6000MHz",
        }
    }
}

/// The amplifiers in the order in which the plan lists them.
pub open spec fn spec_amplifiers() -> Seq<Amplifier> {
    seq![
        Amplifier::A20_500,
        Amplifier::A500_1000,
        Amplifier::A960_1215,
        Amplifier::A1000_2500,
        Amplifier::A2400_6000,
    ]
}

/// The amplifiers, in the order in which the plan lists them.
pub fn amplifiers() -> (v: Vec<Amplifier>)
    ensures
        v@ == spec_amplifiers(),
{
    let v = vec![
        Amplifier::A20_500,
        Amplifier::A500_1000,
        Amplifier::A960_1215,
        Amplifier::A1000_2500,
        Amplifier::A2400_6000,
    ];
    assert(v@ =~= spec_amplifiers());
    v
}

/// The bands a user can zoom on: each amplifier with its lower and upper
/// frequency, in MHz, in the order of `spec_amplifiers`.
pub fn bands() -> (v: Vec<(Amplifier, u32, u32)>)
    ensures
        v@.len() == spec_amplifiers().len(),
        forall|i: int|
            0 <= i < v@.len() ==> #[trigger] v@[i] == (
                spec_amplifiers()[i],
                spec_amplifiers()[i].spec_freq_start(),
                spec_amplifiers()[i].spec_freq_end(),
            ),
{
    let amps = amplifiers();
    let mut v: Vec<(Amplifier, u32, u32)> = Vec::new();
    let n = amps.len();
    for i in 0..n
        invariant
            n == amps@.len(),
            amps@ == spec_amplifiers(),
            v@.len() == i,
            forall|j: int|
                0 <= j < i ==> #[trigger] v@[j] == (
                    spec_amplifiers()[j],
                    spec_amplifiers()[j].spec_freq_start(),
                    spec_amplifiers()[j].spec_freq_end(),
                ),
    {
        let a = amps[i];
        let (lo, hi) = a.freq_range();
        v.push((a, lo, hi));
    }
    v
}

/// A task of the plan: a name, the rectangle from `freq_start` to `freq_end`
/// MHz and from `time_start` to `time_end` ms, and the amplifier carrying it.
#[derive(Clone, Debug)]
pub struct TaskRecord {
    pub name: String,
    pub freq_start: u32,
    pub freq_end: u32,
    pub time_start: u32,
    pub time_end: u32,
    pub amplifier: Amplifier,
}

impl TaskRecord {
    /// A task is drawn in the colour of its amplifier.
    pub fn color(&self) -> (c: Rgba)
        ensures
            c == self.amplifier.spec_color(),
    {
        self.amplifier.color()
    }
}

/// The tasks that the plan schedules.
#[derive(Clone, Copy, PartialEq, Eq, Debug, Structural)]
pub enum ScheduledTask {
    InitCapteurs,
    Transmission,
    SleepMode,
}

impl ScheduledTask {
    pub open spec fn spec_name(self) -> Seq<char> {
        match self {
            ScheduledTask::InitCapteurs => "Init capteurs"@,
            ScheduledTask::Transmission => "Transmission"@,
            ScheduledTask::SleepMode => "Sleep mode"@,
        }
    }

    /// (lowest frequency, highest frequency) in MHz, (start, end) in ms.
    pub open spec fn spec_extent(self) -> (u32, u32, u32, u32) {
        match self {
            ScheduledTask::InitCapteurs => (100, 300, 0, 300),
            ScheduledTask::Transmission => (1000, 2500, 300, 600),
            ScheduledTask::SleepMode => (5000, 5500, 0, 1000),
        }
    }

    pub open spec fn spec_amplifier(self) -> Amplifier {
        match self {
            ScheduledTask::InitCapteurs => Amplifier::A20_500,
            ScheduledTask::Transmission => Amplifier::A1000_2500,
            ScheduledTask::SleepMode => Amplifier::A2400_6000,
        }
    }

    /// The task's name.
    pub fn name(&self) -> (s: &'static str)
        ensures
            s@ == self.spec_name(),
    {
        match self {
            ScheduledTask::InitCapteurs => "Init capteurs",
            ScheduledTask::Transmission => "Transmission",
            ScheduledTask::SleepMode => "Sleep mode",
        }
    }

    /// The rectangle the task occupies: (lowest frequency, highest frequency)
    /// in MHz and (start, end) in ms.
    pub fn extent(&self) -> (e: (u32, u32, u32, u32))
        ensures
            e == self.spec_extent(),
    {
        match self {
            ScheduledTask::InitCapteurs => (100, 300, 0, 300),
            ScheduledTask::Transmission => (1000, 2500, 300, 600),
            ScheduledTask::SleepMode => (5000, 5500, 0, 1000),
        }
    }

    /// The amplifier that carries the task.
    pub fn amplifier(&self) -> (a: Amplifier)
        ensures
            a == self.spec_amplifier(),
    {
        match self {
            ScheduledTask::InitCapteurs => Amplifier::A20_500,
            ScheduledTask::Transmission => Amplifier::A1000_2500,
            ScheduledTask::SleepMode => Amplifier::A2400_6000,
        }
    }

    /// A task is drawn in the colour of its amplifier.
    pub fn color(&self) -> (c: Rgba)
        ensures
            c == self.spec_amplifier().spec_color(),
    {
        self.amplifier().color()
    }

    /// The full record of the task.
    pub fn record(&self) -> (t: TaskRecord)
        ensures
            t.name@ == self.spec_name(),
            (t.freq_start, t.freq_end, t.time_start, t.time_end) == self.spec_extent(),
            t.amplifier == self.spec_amplifier(),
    {
        let (freq_start, freq_end, time_start, time_end) = self.extent();
        TaskRecord {
            name: String::from_str(self.name()),
            freq_start,
            freq_end,
            time_start,
            time_end,
            amplifier: self.amplifier(),
        }
    }
}

/// Each scheduled task lies inside the band of the amplifier that carries it,
/// and inside the time axis.
pub proof fn law_task_within_amplifier_band(t: ScheduledTask)
    ensures
        ({
            let (f0, f1, t0, t1) = t.spec_extent();
            &&& t.spec_amplifier().spec_freq_start() <= f0 < f1 <= t.spec_amplifier().spec_freq_end()
            &&& 0 <= t0 < t1 <= MAX_TIME
        }),
{
}

/// The decimal digits of `n`, most significant first, with no leading zero.
pub open spec fn decimal(n: nat) -> Seq<char>
    decreases n,
{
    let digits = seq!['0', '1', '2', '3', '4', '5', '6', '7', '8', '9'];
    if n < 10 {
        seq![digits[n as int]]
    } else {
        decimal(n / 10).push(digits[(n % 10) as int])
    }
}

/// Each amplifier's label names its own band: "Amplifier <start>-<end>MHz".
pub proof fn law_label_names_band(a: Amplifier)
    ensures
        a.spec_label() == "Amplifier "@ + decimal(a.spec_freq_start() as nat) + "-"@ + decimal(
            a.spec_freq_end() as nat,
        ) + "MHz"@,
{
    reveal_strlit("Amplifier ");
    reveal_strlit("-");
    reveal_strlit("MHz");
    reveal_with_fuel(decimal, 5);
    match a {
        Amplifier::A20_500 => {
            reveal_strlit("Amplifier 20-500MHz");
            assert(a.spec_label() =~= "Amplifier "@ + decimal(20) + "-"@ + decimal(500) + "MHz"@);
        },
        Amplifier::A500_1000 => {
            reveal_strlit("Amplifier 500-1000MHz");
            assert(a.spec_label() =~= "Amplifier "@ + decimal(500) + "-"@ + decimal(1000) + "MHz"@);
        },
        Amplifier::A960_1215 => {
            reveal_strlit("Amplifier 960-1215MHz");
            assert(a.spec_label() =~= "Amplifier "@ + decimal(960) + "-"@ + decimal(1215) + "MHz"@);
        },
        Amplifier::A1000_2500 => {
            reveal_strlit("Amplifier 1000-2500MHz");
            assert(a.spec_label() =~= "Amplifier "@ + decimal(1000) + "-"@ + decimal(2500) + "MHz"@);
        },
        Amplifier::A2400_6000 => {
            reveal_strlit("Amplifier 2400-6000MHz");
            assert(a.spec_label() =~= "Amplifier "@ + decimal(2400) + "-"@ + decimal(6000) + "MHz"@);
        },
    }
}

/// The amplifiers, listed from the lowest band up, with their bands in MHz
/// and their colours: 20-500 (0, 187, 221), 500-1000 (255, 163, 0),
/// 960-1215 (124, 127, 171), 1000-2500 (0, 171, 142), 2400-6000 (174, 37, 115).
pub proof fn law_amplifier_table()
    ensures
        spec_amplifiers().len() == 5,
        forall|i: int, j: int|
            0 <= i < j < 5 ==> spec_amplifiers()[i] != spec_amplifiers()[j]
                && spec_amplifiers()[i].spec_freq_start() < spec_amplifiers()[j].spec_freq_start(),
        ({
            let a = spec_amplifiers()[0];
            (a.spec_freq_start(), a.spec_freq_end(), a.spec_color()) == (20u32, 500u32, Rgba { r: 0, g: 187, b: 221, a: 255 })
        }),
        ({
            let a = spec_amplifiers()[1];
            (a.spec_freq_start(), a.spec_freq_end(), a.spec_color()) == (500u32, 1000u32, Rgba { r: 255, g: 163, b: 0, a: 255 })
        }),
        ({
            let a = spec_amplifiers()[2];
            (a.spec_freq_start(), a.spec_freq_end(), a.spec_color()) == (960u32, 1215u32, Rgba { r: 124, g: 127, b: 171, a: 255 })
        }),
        ({
            let a = spec_amplifiers()[3];
            (a.spec_freq_start(), a.spec_freq_end(), a.spec_color()) == (1000u32, 2500u32, Rgba { r: 0, g: 171, b: 142, a: 255 })
        }),
        ({
            let a = spec_amplifiers()[4];
            (a.spec_freq_start(), a.spec_freq_end(), a.spec_color()) == (2400u32, 6000u32, Rgba { r: 174, g: 37, b: 115, a: 255 })
        }),
        spec_amplifiers()[2] == Amplifier::A960_1215,
{
}

/// Every amplifier appears in the list, once.
pub proof fn law_every_amplifier_listed(a: Amplifier)
    ensures
        spec_amplifiers().contains(a),
{
    match a {
        Amplifier::A20_500 => assert(spec_amplifiers()[0] == a),
        Amplifier::A500_1000 => assert(spec_amplifiers()[1] == a),
        Amplifier::A960_1215 => assert(spec_amplifiers()[2] == a),
        Amplifier::A1000_2500 => assert(spec_amplifiers()[3] == a),
        Amplifier::A2400_6000 => assert(spec_amplifiers()[4] == a),
    }
}

} // verus!
