//! NVIDIA GPU temperatures: the readings in the text that `nvidia-smi`
//! prints for the query below. Running `nvidia-smi` is the application's.
use vstd::prelude::*;
use vstd::string::StringExecFns;
use crate::collector::ZoneReading;
use crate::text::{
    chars_of, decimal_i64, parse_i64, split_chars, split_on, string_of_range, string_views, trim,
    trimmed,
};

verus! {

/// The program run for GPU readings.
pub const NVIDIA_SMI: &'static str = "nvidia-smi";

/// Its arguments: one CSV line per GPU, `index, name, temperature` in whole
/// degrees Celsius, without header or units.
pub const NVIDIA_SMI_QUERY: &'static str = "--query-gpu=index,name,temperature.gpu";

/// The output format argument.
pub const NVIDIA_SMI_FORMAT: &'static str = "--format=csv,noheader,nounits";

/// The reading of one line `index, name, temperature`: the index is what
/// precedes the first comma, the temperature what follows the last, the name
/// what lies between (so a name may hold commas); each is trimmed. The sensor
/// is named `gpu<index>:<name>`, and the temperature, a decimal integer of
/// degrees, is held in thousandths of a degree. `None` when the line has
/// fewer than two commas, the temperature is not a decimal integer, or its
/// thousandths leave the range of `i64`.
pub open spec fn gpu_line_reading(line: Seq<char>) -> Option<(Seq<char>, int)> {
    match (line.index_of_first(','), line.index_of_last(',')) {
        (Some(f), Some(l)) => if f < l {
            let index = trimmed(line.subrange(0, f));
            let name = trimmed(line.subrange(f + 1, l));
            let temp = trimmed(line.subrange(l + 1, line.len() as int));
            match decimal_i64(temp) {
                Some(v) => if i64::MIN <= v * 1000 <= i64::MAX {
                    Some(("gpu"@ + index + ":"@ + name, v * 1000))
                } else {
                    None
                },
                None => None,
            }
        } else {
            None
        },
        _ => None,
    }
}

/// The readings of the lines of `nvidia-smi` output, in order: a line that is
/// not a reading (blank, or a GPU whose temperature is not a number, such as
/// `[N/A]`) gives none, and the other lines are still read.
pub open spec fn gpu_readings(lines: Seq<Seq<char>>) -> Seq<(Seq<char>, int)>
    decreases lines.len(),
{
    if lines.len() == 0 {
        Seq::empty()
    } else {
        match gpu_line_reading(lines.last()) {
            Some(r) => gpu_readings(lines.drop_last()).push(r),
            None => gpu_readings(lines.drop_last()),
        }
    }
}

/// Whether the readings `v` are the pairs (name, thousandths) `rs`.
pub open spec fn readings_are(v: Seq<ZoneReading>, rs: Seq<(Seq<char>, int)>) -> bool {
    &&& v.len() == rs.len()
    &&& forall|i: int|
        0 <= i < v.len() ==> (#[trigger] v[i]).sensor_name@ == rs[i].0 && v[i].milli_c == rs[i].1
}

/// The position of the first `c` in `v`.
fn first_index(v: &Vec<char>, c: char) -> (r: Option<usize>)
    ensures
        match v@.index_of_first(c) {
            Some(i) => r == Some(i as usize),
            None => r is None,
        },
        r matches Some(k) ==> k < v@.len() && v@.index_of_first(c) == Some(k as int),
{
    let mut i: usize = 0;
    while i < v.len()
        invariant
            i <= v@.len(),
            forall|j: int| 0 <= j < i ==> v@[j] != c,
        decreases v.len() - i,
    {
        if v[i] == c {
            proof {
                v@.index_of_first_ensures(c);
            }
            return Some(i);
        }
        i = i + 1;
    }
    proof {
        v@.index_of_first_ensures(c);
    }
    assert(!v@.contains(c));
    None
}

/// The position of the last `c` in `v`.
fn last_index(v: &Vec<char>, c: char) -> (r: Option<usize>)
    ensures
        match v@.index_of_last(c) {
            Some(i) => r == Some(i as usize),
            None => r is None,
        },
        r matches Some(k) ==> k < v@.len() && v@.index_of_last(c) == Some(k as int),
{
    let mut i: usize = v.len();
    while i > 0
        invariant
            i <= v@.len(),
            forall|j: int| i <= j < v@.len() ==> v@[j] != c,
        decreases i,
    {
        if v[i - 1] == c {
            proof {
                v@.index_of_last_ensures(c);
            }
            return Some(i - 1);
        }
        i = i - 1;
    }
    proof {
        v@.index_of_last_ensures(c);
    }
    assert(!v@.contains(c));
    None
}

/// The reading of one line of `nvidia-smi` output (see `gpu_line_reading`).
pub fn gpu_line(line: &str) -> (r: Option<ZoneReading>)
    ensures
        match gpu_line_reading(line@) {
            Some(p) => r matches Some(z) && z.sensor_name@ == p.0 && z.milli_c == p.1,
            None => r is None,
        },
{
    let v = chars_of(line);
    let f = match first_index(&v, ',') {
        Some(f) => f,
        None => return None,
    };
    let l = match last_index(&v, ',') {
        Some(l) => l,
        None => return None,
    };
    if f >= l {
        return None;
    }
    assert(l < v.len());
    let index = trim(string_of_range(&v, 0, f).as_str());
    let name = trim(string_of_range(&v, f + 1, l).as_str());
    let temp = trim(string_of_range(&v, l + 1, v.len()).as_str());
    let degrees = match parse_i64(temp.as_str()) {
        Some(d) => d,
        None => return None,
    };
    if degrees > 9_223_372_036_854_775 || degrees < -9_223_372_036_854_775 {
        return None;
    }
    let sensor_name = String::from_str("gpu").concat(index.as_str()).concat(":").concat(
        name.as_str(),
    );
    Some(ZoneReading { sensor_name, milli_c: degrees * 1000 })
}

/// The GPU readings in `nvidia-smi` output (see `gpu_readings` on its lines).
pub fn nvidia_readings(output: &str) -> (r: Vec<ZoneReading>)
    ensures
        readings_are(r@, gpu_readings(split_on(output@, '\n'))),
{
    let lines = split_chars(output, '\n');
    let ghost views = split_on(output@, '\n');
    let mut out: Vec<ZoneReading> = Vec::new();
    let mut i: usize = 0;
    assert(views.take(0) =~= Seq::<Seq<char>>::empty());
    while i < lines.len()
        invariant
            string_views(lines@) == views,
            views == split_on(output@, '\n'),
            i <= lines@.len(),
            readings_are(out@, gpu_readings(views.take(i as int))),
        decreases lines.len() - i,
    {
        let ghost rs = gpu_readings(views.take(i as int));
        assert(views.take(i + 1).drop_last() =~= views.take(i as int));
        assert(views.take(i + 1).last() == lines@[i as int]@);
        assert(views[i as int] == lines@[i as int]@);
        match gpu_line(lines[i].as_str()) {
            Some(z) => {
                out.push(z);
                assert(readings_are(out@, rs.push(gpu_line_reading(lines@[i as int]@)->0)));
            },
            None => {},
        }
        i = i + 1;
    }
    assert(views.take(lines@.len() as int) =~= views);
    out
}

} // verus!
