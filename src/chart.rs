//! Chart layout: where each latency chart is written, what it is titled,
//! its axes, and the mean latency shown in a comparison chart's legend.

use vstd::prelude::*;
use crate::bench::Run;
use crate::decimal::{decimal, decimal_string};

verus! {

/// Width of every chart, in pixels.
pub const CANVAS_WIDTH: u32 = 1200;

/// Height of every chart, in pixels.
pub const CANVAS_HEIGHT: u32 = 800;

/// Top of the latency axis, in nanoseconds.
pub const Y_CEILING_NANOS: u128 = 500000;

/// Room for the labels left of and below the plot, in pixels.
pub const AXIS_LABEL_AREA: u32 = 80;

/// Room right of a comparison plot, in pixels.
pub const RIGHT_LABEL_AREA: u32 = 20;

/// Font size of chart titles.
pub const CAPTION_FONT_SIZE: u32 = 40;

/// Directory that receives the images.
pub const IMAGE_DIR: &'static str = "images/";

/// Extension of the image files.
pub const IMAGE_EXT: &'static str = ".png";

/// File name prefix of comparison charts, after `IMAGE_DIR`.
pub const COMPARISON_PREFIX: &'static str = "rdbms_file_";

/// Title of a comparison chart before the other series' name.
pub const COMPARISON_CAPTION_START: &'static str = "rdbms vs file vs  rdbms ";

/// Title of a comparison chart after the other series' name.
pub const COMPARISON_CAPTION_END: &'static str = " for logging";

/// Legend name of the baseline relational series.
pub const BASELINE_NAME: &'static str = "rdbms";

/// Legend name of the flat-file series.
pub const FILE_NAME: &'static str = "files";

/// Between a series' name and its mean in the legend.
pub const AVERAGE_INFIX: &'static str = " avg ";

/// After the mean in the legend.
pub const NANOS_SUFFIX: &'static str = "ns";

/// Why a chart could not be laid out.
#[derive(Clone, Copy, Debug, PartialEq, Eq, Structural)]
pub enum ChartError {
    /// A series whose mean is needed has no values.
    EmptySeries,
    /// The latencies of a series add up to more than a `u128` holds.
    SumOverflow,
}

/// The sum of a latency series, in nanoseconds.
pub open spec fn sum_nanos(s: Seq<u128>) -> nat
    decreases s.len(),
{
    if s.len() == 0 {
        0
    } else {
        sum_nanos(s.drop_last()) + s.last() as nat
    }
}

/// The mean of a latency series, rounded down, or why it is not given.
pub open spec fn mean_of(s: Seq<u128>) -> Result<u128, ChartError> {
    if s.len() == 0 {
        Err(ChartError::EmptySeries)
    } else if sum_nanos(s) > u128::MAX {
        Err(ChartError::SumOverflow)
    } else {
        Ok((sum_nanos(s) / s.len()) as u128)
    }
}

/// The legend entry of a series called `name` with mean `mean`.
pub open spec fn average_text(name: Seq<char>, mean: u128) -> Seq<char> {
    name + AVERAGE_INFIX@ + decimal(mean as nat) + NANOS_SUFFIX@
}

/// The legend entry of a series, or why it cannot be given.
pub open spec fn label_of(name: Seq<char>, s: Seq<u128>) -> Result<Seq<char>, ChartError> {
    match mean_of(s) {
        Ok(m) => Ok(average_text(name, m)),
        Err(e) => Err(e),
    }
}

/// Why a comparison chart of these series cannot be laid out, where it
/// cannot: the first failing legend entry, taken in the order baseline,
/// other, file.
pub open spec fn comparison_error(
    baseline: Seq<u128>,
    file: Seq<u128>,
    other: Seq<u128>,
) -> Option<ChartError> {
    match (mean_of(baseline), mean_of(other), mean_of(file)) {
        (Err(e), _, _) => Some(e),
        (Ok(_), Err(e), _) => Some(e),
        (Ok(_), Ok(_), Err(e)) => Some(e),
        _ => None,
    }
}

/// The layout of a chart of one latency series.
#[derive(Clone, Debug)]
pub struct SingleChart {
    /// Path of the image file.
    pub file_name: String,
    /// Title of the chart.
    pub caption: String,
    /// The x axis runs over `0..x_end`, one point per insert.
    pub x_end: usize,
    /// The y axis runs over `0..y_ceiling`, in nanoseconds.
    pub y_ceiling: u128,
}

/// The layout of a chart that overlays three latency series.
#[derive(Clone, Debug)]
pub struct ComparisonChart {
    /// Path of the image file.
    pub file_name: String,
    /// Title of the chart.
    pub caption: String,
    /// The x axis runs over `0..x_end`, the length of the baseline series.
    pub x_end: usize,
    /// The y axis runs over `0..y_ceiling`, in nanoseconds.
    pub y_ceiling: u128,
    /// Legend entry of the baseline relational series.
    pub baseline_label: String,
    /// Legend entry of the other series.
    pub other_label: String,
    /// Legend entry of the flat-file series.
    pub file_label: String,
}

proof fn lemma_sum_prefix_bounded(s: Seq<u128>, i: int)
    requires
        0 <= i <= s.len(),
    ensures
        sum_nanos(s.take(i)) <= sum_nanos(s),
    decreases s.len() - i,
{
    if i < s.len() {
        lemma_sum_prefix_bounded(s, i + 1);
        assert(s.take(i + 1).drop_last() =~= s.take(i));
    } else {
        assert(s.take(i) =~= s);
    }
}

/// The mean of a latency series, rounded down; an empty series has none.
pub fn mean_nanos(series: &Vec<u128>) -> (r: Result<u128, ChartError>)
    ensures
        r == mean_of(series@),
{
    if series.len() == 0 {
        return Err(ChartError::EmptySeries);
    }
    let mut total: u128 = 0;
    let mut i: usize = 0;
    while i < series.len()
        invariant
            i <= series@.len(),
            total == sum_nanos(series@.take(i as int)),
        decreases series@.len() - i,
    {
        assert(series@.take(i + 1).drop_last() =~= series@.take(i as int));
        match total.checked_add(series[i]) {
            None => {
                proof {
                    lemma_sum_prefix_bounded(series@, i + 1);
                }
                return Err(ChartError::SumOverflow);
            },
            Some(t) => {
                total = t;
            },
        }
        i = i + 1;
    }
    assert(series@.take(i as int) =~= series@);
    Ok(total / (series.len() as u128))
}

/// The legend entry `<name> avg <mean>ns` of a series.
pub fn average_label(name: &str, series: &Vec<u128>) -> (r: Result<String, ChartError>)
    ensures
        r is Ok <==> label_of(name@, series@) is Ok,
        r is Ok ==> r->Ok_0@ == label_of(name@, series@)->Ok_0,
        r is Err ==> label_of(name@, series@) == Err::<Seq<char>, ChartError>(r->Err_0),
{
    match mean_nanos(series) {
        Ok(mean) => {
            let mut s = String::from_str(name);
            s.append(AVERAGE_INFIX);
            let digits = decimal_string(mean);
            s.append(digits.as_str());
            s.append(NANOS_SUFFIX);
            Ok(s)
        },
        Err(e) => Err(e),
    }
}

/// The layout of the chart of `series` titled `plot_name`, written to
/// `images/<plot_name>.png`.
pub fn single_chart(series: &Vec<u128>, plot_name: &str) -> (r: SingleChart)
    ensures
        r.file_name@ == IMAGE_DIR@ + plot_name@ + IMAGE_EXT@,
        r.caption@ == plot_name@,
        r.x_end == series@.len(),
        r.y_ceiling == Y_CEILING_NANOS,
{
    let mut file_name = String::from_str(IMAGE_DIR);
    file_name.append(plot_name);
    file_name.append(IMAGE_EXT);
    SingleChart {
        file_name,
        caption: String::from_str(plot_name),
        x_end: series.len(),
        y_ceiling: Y_CEILING_NANOS,
    }
}

/// The layout of the chart that overlays the baseline relational series,
/// the flat-file series and `other`, written to
/// `images/rdbms_file_<other_name>.png`, with each series' mean in its
/// legend entry. Fails where a mean cannot be given.
pub fn comparison_chart(
    results_rdbms: &Vec<u128>,
    results_file: &Vec<u128>,
    other: &Vec<u128>,
    other_name: &str,
) -> (r: Result<ComparisonChart, ChartError>)
    ensures
        r is Err <==> comparison_error(results_rdbms@, results_file@, other@) is Some,
        r is Err ==> comparison_error(results_rdbms@, results_file@, other@) == Some(r->Err_0),
        r is Ok ==> ({
            let c = r->Ok_0;
            &&& c.file_name@ == IMAGE_DIR@ + COMPARISON_PREFIX@ + other_name@ + IMAGE_EXT@
            &&& c.caption@ == COMPARISON_CAPTION_START@ + other_name@ + COMPARISON_CAPTION_END@
            &&& c.x_end == results_rdbms@.len()
            &&& c.y_ceiling == Y_CEILING_NANOS
            &&& c.baseline_label@ == label_of(BASELINE_NAME@, results_rdbms@)->Ok_0
            &&& c.other_label@ == label_of(other_name@, other@)->Ok_0
            &&& c.file_label@ == label_of(FILE_NAME@, results_file@)->Ok_0
        }),
{
    let baseline_label = match average_label(BASELINE_NAME, results_rdbms) {
        Ok(s) => s,
        Err(e) => return Err(e),
    };
    let other_label = match average_label(other_name, other) {
        Ok(s) => s,
        Err(e) => return Err(e),
    };
    let file_label = match average_label(FILE_NAME, results_file) {
        Ok(s) => s,
        Err(e) => return Err(e),
    };
    let mut file_name = String::from_str(IMAGE_DIR);
    file_name.append(COMPARISON_PREFIX);
    file_name.append(other_name);
    file_name.append(IMAGE_EXT);
    let mut caption = String::from_str(COMPARISON_CAPTION_START);
    caption.append(other_name);
    caption.append(COMPARISON_CAPTION_END);
    Ok(ComparisonChart {
        file_name,
        caption,
        x_end: results_rdbms.len(),
        y_ceiling: Y_CEILING_NANOS,
        baseline_label,
        other_label,
        file_label,
    })
}

/// A run of zero iterations yields an empty latency series, and a
/// comparison chart with that series as its other series is refused with
/// an error instead of dividing by zero.
pub proof fn lemma_zero_iterations_refused_by_chart(run: &Run, baseline: Seq<u128>, file: Seq<u128>)
    requires
        run.wf(),
        run.planned() == 0,
    ensures
        run.timings().len() == 0,
        comparison_error(baseline, file, run.timings()) is Some,
{
}

} // verus!
