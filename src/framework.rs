use vstd::prelude::*;

verus! {

/// How the overlay is drawn: plain label, or label with debug markers.
#[derive(PartialEq, Eq, Structural, Clone, Copy, Debug)]
pub enum RunMode {
    Production,
    Debug,
}

impl RunMode {
    /// The other mode.
    pub open spec fn flipped(self) -> RunMode {
        match self {
            RunMode::Production => RunMode::Debug,
            RunMode::Debug => RunMode::Production,
        }
    }

    /// The mode that follows this one when the mode key is released.
    pub fn next(self) -> (r: RunMode)
        ensures
            r == self.flipped(),
    {
        match self {
            RunMode::Production => RunMode::Debug,
            RunMode::Debug => RunMode::Production,
        }
    }
}

/// The keys the sketches react to; every other key is `Other`.
#[derive(PartialEq, Eq, Structural, Clone, Copy, Debug)]
pub enum Key {
    S,
    M,
    Space,
    Other,
}

/// Run mode, capture requests and the recording window of one sketch.
pub struct RunController {
    pub run_mode: RunMode,
    pub label: String,
    /// A single frame capture was asked for and has not happened yet.
    pub save_frame: bool,
    /// Every frame is captured while this holds.
    pub recording: bool,
    /// Whole seconds after start beyond which recording stops for good.
    pub record_limit_secs: u64,
}

/// The text of a run of `n` zeros.
pub open spec fn zeros(n: nat) -> Seq<char>
    decreases n,
{
    if n == 0 {
        seq![]
    } else {
        zeros((n - 1) as nat).push('0')
    }
}

/// The character of a decimal digit.
pub open spec fn digit_char(d: nat) -> char {
    seq!['0', '1', '2', '3', '4', '5', '6', '7', '8', '9'][d as int]
}

/// `n` written in decimal, without leading zeros.
pub open spec fn decimal(n: nat) -> Seq<char>
    decreases n,
{
    if n < 10 {
        seq![digit_char(n)]
    } else {
        decimal(n / 10).push(digit_char(n % 10))
    }
}

/// `n` in decimal, padded on the left with zeros to at least three digits.
pub open spec fn frame_number(n: nat) -> Seq<char> {
    if n < 10 {
        zeros(2) + decimal(n)
    } else if n < 100 {
        zeros(1) + decimal(n)
    } else {
        decimal(n)
    }
}

/// Where frame `n` of the program `exe` is written, relative to the project directory.
pub open spec fn frame_path(exe: Seq<char>, n: nat) -> Seq<char> {
    exe + seq!['/'] + frame_number(n) + seq!['.', 'p', 'n', 'g']
}

/// The label of a program whose executable is called `stem`, at version `describe`.
pub open spec fn project_name(stem: Seq<char>, describe: Seq<char>) -> Seq<char> {
    stem + seq![' '] + describe
}

/// The label shown when no program name is known.
pub open spec fn unlabeled() -> Seq<char> {
    seq!['u', 'n', 'l', 'a', 'b', 'e', 'l', 'e', 'd']
}

/// The text drawn in the bottom bar in the given mode.
pub open spec fn label_for(mode: RunMode, label: Seq<char>) -> Seq<char> {
    match mode {
        RunMode::Production => label,
        RunMode::Debug => seq!['(', 'D', 'E', 'B', 'U', 'G', ')', ' '] + label,
    }
}

/// The text of one decimal digit.
fn digit_str(d: u64) -> (r: &'static str)
    requires
        d < 10,
    ensures
        r@ == seq![digit_char(d as nat)],
{
    if d == 0 {
        proof { reveal_strlit("0"); }
        "0"
    } else if d == 1 {
        proof { reveal_strlit("1"); }
        "1"
    } else if d == 2 {
        proof { reveal_strlit("2"); }
        "2"
    } else if d == 3 {
        proof { reveal_strlit("3"); }
        "3"
    } else if d == 4 {
        proof { reveal_strlit("4"); }
        "4"
    } else if d == 5 {
        proof { reveal_strlit("5"); }
        "5"
    } else if d == 6 {
        proof { reveal_strlit("6"); }
        "6"
    } else if d == 7 {
        proof { reveal_strlit("7"); }
        "7"
    } else if d == 8 {
        proof { reveal_strlit("8"); }
        "8"
    } else {
        proof { reveal_strlit("9"); }
        "9"
    }
}

/// `n` written in decimal.
pub fn decimal_string(n: u64) -> (r: String)
    ensures
        r@ == decimal(n as nat),
    decreases n,
{
    if n < 10 {
        String::from_str(digit_str(n))
    } else {
        let head = decimal_string(n / 10);
        head.concat(digit_str(n % 10))
    }
}

/// The file name of frame `n`: its number padded to three digits, then `.png`.
pub fn frame_file_name(n: u64) -> (r: String)
    ensures
        r@ == frame_number(n as nat) + seq!['.', 'p', 'n', 'g'],
{
    proof {
        reveal_strlit("00");
        reveal_strlit("0");
        reveal_strlit(".png");
        assert(zeros(2) =~= seq!['0', '0']) by {
            assert(zeros(1) =~= seq!['0']) by {
                assert(zeros(0) =~= seq![]);
            }
        }
        assert(zeros(1) =~= seq!['0']) by {
            assert(zeros(0) =~= seq![]);
        }
    }
    let digits = decimal_string(n);
    let padded = if n < 10 {
        String::from_str("00").concat(digits.as_str())
    } else if n < 100 {
        String::from_str("0").concat(digits.as_str())
    } else {
        digits
    };
    padded.concat(".png")
}

/// The path, relative to the project directory, that frame `n` of program `exe` is captured to.
pub fn captured_frame_path(exe: &str, n: u64) -> (r: String)
    ensures
        r@ == frame_path(exe@, n as nat),
{
    proof {
        reveal_strlit("/");
    }
    let name = frame_file_name(n);
    let r = String::from_str(exe).concat("/").concat(name.as_str());
    proof {
        assert(r@ =~= frame_path(exe@, n as nat));
    }
    r
}

/// The program's label, "<stem> <describe>", when the executable's stem is known.
pub fn projname(stem: Option<&str>, describe: &str) -> (r: Option<String>)
    ensures
        stem.is_none() ==> r.is_none(),
        stem.is_some() ==> r.is_some() && r.unwrap()@ == project_name(stem.unwrap()@, describe@),
{
    proof {
        reveal_strlit(" ");
    }
    match stem {
        None => None,
        Some(s) => Some(String::from_str(s).concat(" ").concat(describe)),
    }
}

/// The label to show: the program name if there is one, else "unlabeled".
pub fn label_or_default(name: Option<String>) -> (r: String)
    ensures
        name.is_some() ==> r@ == name.unwrap()@,
        name.is_none() ==> r@ == unlabeled(),
{
    proof {
        reveal_strlit("unlabeled");
    }
    match name {
        Some(s) => s,
        None => String::from_str("unlabeled"),
    }
}

impl RunController {
    /// A controller in `run_mode` with no capture pending.
    pub fn new(run_mode: RunMode, label: String, recording: bool, record_limit_secs: u64) -> (r: RunController)
        ensures
            r.run_mode == run_mode,
            r.label == label,
            !r.save_frame,
            r.recording == recording,
            r.record_limit_secs == record_limit_secs,
    {
        RunController { run_mode, label, save_frame: false, recording, record_limit_secs }
    }

    /// Switches between production and debug mode.
    pub fn next_run_mode(&mut self)
        ensures
            final(self).run_mode == old(self).run_mode.flipped(),
            final(self).label == old(self).label,
            final(self).save_frame == old(self).save_frame,
            final(self).recording == old(self).recording,
            final(self).record_limit_secs == old(self).record_limit_secs,
    {
        self.run_mode = self.run_mode.next();
    }

    /// Asks for the next rendered frame to be captured.
    pub fn save_next_frame(&mut self)
        ensures
            final(self).save_frame,
            final(self).run_mode == old(self).run_mode,
            final(self).label == old(self).label,
            final(self).recording == old(self).recording,
            final(self).record_limit_secs == old(self).record_limit_secs,
    {
        self.save_frame = true;
    }

    /// Whether the frame just rendered is to be captured.
    pub fn capture_due(&self) -> (r: bool)
        ensures
            r == (self.save_frame || self.recording),
    {
        self.save_frame || self.recording
    }

    /// Marks frame `n` as captured and returns the path it is written to.
    pub fn save_current_frame(&mut self, exe: &str, n: u64) -> (r: String)
        ensures
            r@ == frame_path(exe@, n as nat),
            !final(self).save_frame,
            final(self).run_mode == old(self).run_mode,
            final(self).label == old(self).label,
            final(self).recording == old(self).recording,
            final(self).record_limit_secs == old(self).record_limit_secs,
    {
        let path = captured_frame_path(exe, n);
        self.save_frame = false;
        path
    }

    /// Called once frame `n` has been rendered: the path to capture it to, if it is to be captured.
    pub fn frame_rendered(&mut self, exe: &str, n: u64) -> (r: Option<String>)
        ensures
            r.is_some() == (old(self).save_frame || old(self).recording),
            r.is_some() ==> r.unwrap()@ == frame_path(exe@, n as nat),
            !final(self).save_frame,
            final(self).run_mode == old(self).run_mode,
            final(self).label == old(self).label,
            final(self).recording == old(self).recording,
            final(self).record_limit_secs == old(self).record_limit_secs,
    {
        if self.capture_due() {
            Some(self.save_current_frame(exe, n))
        } else {
            None
        }
    }

    /// Advances the clock to `elapsed_secs` whole seconds after start; past the limit,
    /// recording stops and is never resumed.
    pub fn tick(&mut self, elapsed_secs: u64)
        ensures
            final(self).recording == (old(self).recording && elapsed_secs <= old(self).record_limit_secs),
            final(self).run_mode == old(self).run_mode,
            final(self).label == old(self).label,
            final(self).save_frame == old(self).save_frame,
            final(self).record_limit_secs == old(self).record_limit_secs,
    {
        if elapsed_secs > self.record_limit_secs {
            self.recording = false;
        }
    }

    /// Handles the keys common to every sketch: `S` asks for a capture, `M` switches the
    /// run mode. Returns whether the key was one of them; any other key changes nothing.
    pub fn key_released(&mut self, key: Key) -> (handled: bool)
        ensures
            handled == (key == Key::S || key == Key::M),
            final(self).save_frame == (old(self).save_frame || key == Key::S),
            final(self).run_mode == (if key == Key::M {
                old(self).run_mode.flipped()
            } else {
                old(self).run_mode
            }),
            final(self).label == old(self).label,
            final(self).recording == old(self).recording,
            final(self).record_limit_secs == old(self).record_limit_secs,
    {
        match key {
            Key::S => {
                self.save_next_frame();
                true
            },
            Key::M => {
                self.next_run_mode();
                true
            },
            _ => false,
        }
    }

    /// The text of the bottom bar: the label, prefixed by "(DEBUG) " in debug mode.
    pub fn label_text(&self) -> (r: String)
        ensures
            r@ == label_for(self.run_mode, self.label@),
    {
        proof {
            reveal_strlit("(DEBUG) ");
        }
        match self.run_mode {
            RunMode::Production => self.label.clone(),
            RunMode::Debug => String::from_str("(DEBUG) ").concat(self.label.as_str()),
        }
    }
}

} // verus!
