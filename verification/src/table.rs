//! The load sheet of an airplane as rows of text.
//!
//! The first row names the columns, one row follows for each load, and the
//! last row holds the totals.  Numbers are written with a decimal comma.

use crate::airplane::{Airplane, AirplaneView};
use crate::arith::{div_floor, floor_div};
use crate::decimal::{decimal_text, format_decimal};
use crate::moment::{Moment, MomentView};
use crate::totals::lemma_totals_fit;
use crate::units::{lemma_mass_bound, Mass, Volume};
use vstd::prelude::*;
use vstd::string::StringExecFns;

verus! {

/// The text with a comma in place of every full stop.
pub open spec fn with_commas(text: Seq<char>) -> Seq<char> {
    text.map_values(
        |c: char|
            if c == '.' {
                ','
            } else {
                c
            },
    )
}

/// The name of a load; a load of fuel shows its unit in brackets behind it.
pub open spec fn name_cell(load: MomentView) -> Seq<char> {
    match load.mass {
        Mass::Kilo(_) => load.name,
        _ => with_commas(load.name + seq![' ', '('] + load.mass.unit_text() + seq![')']),
    }
}

/// The arm of a load in metres, with four decimals.
pub open spec fn arm_cell(load: MomentView) -> Seq<char> {
    with_commas(decimal_text(load.lever_arm.meters(), 9, 4))
}

/// The kilograms of a load with two decimals; a load of fuel shows its
/// volume in brackets before them.
pub open spec fn mass_cell(load: MomentView) -> Seq<char> {
    let kilograms = decimal_text(load.mass.kilograms(), 9, 2);
    match load.mass {
        Mass::Kilo(_) => with_commas(kilograms),
        Mass::Avgas(v) => with_commas(seq!['('] + v.text() + seq![')', ' '] + kilograms),
        Mass::Mogas(v) => with_commas(seq!['('] + v.text() + seq![')', ' '] + kilograms),
    }
}

/// The mass moment of a load in kilogram metres, with two decimals.
pub open spec fn moment_cell(load: MomentView) -> Seq<char> {
    with_commas(decimal_text(load.kilogram_meters(), 18, 2))
}

/// The row of one load.
pub open spec fn moment_row(load: MomentView) -> Seq<Seq<char>> {
    seq![name_cell(load), arm_cell(load), mass_cell(load), moment_cell(load)]
}

/// The row that names the columns.
pub open spec fn header_row() -> Seq<Seq<char>> {
    seq![
        seq!['N', 'a', 'm', 'e'],
        seq!['L', 'e', 'v', 'e', 'r', ' ', 'A', 'r', 'm', ' ', '[', 'm', ']'],
        seq!['M', 'a', 's', 's', ' ', '[', 'k', 'g', ']'],
        seq![
            'M',
            'a',
            's',
            's',
            ' ',
            'M',
            'o',
            'm',
            'e',
            'n',
            't',
            ' ',
            '[',
            'k',
            'g',
            ' ',
            'm',
            ']',
        ],
    ]
}

/// The centre of gravity in metres with four decimals.  An
/// airplane without mass has none: the cell then reads `NaN` where the
/// moment is zero too, and else `inf` with the sign of the moment.
pub open spec fn center_of_gravity_cell(plane: AirplaneView) -> Seq<char> {
    if plane.total_mass() != 0 {
        with_commas(decimal_text(floor_div(plane.total_mass_moment(), plane.total_mass()), 9, 4))
    } else if plane.total_mass_moment() == 0 {
        seq!['N', 'a', 'N']
    } else if plane.total_mass_moment() > 0 {
        seq!['i', 'n', 'f']
    } else {
        seq!['-', 'i', 'n', 'f']
    }
}

/// The row of the totals.
pub open spec fn total_row(plane: AirplaneView) -> Seq<Seq<char>> {
    seq![
        seq!['T', 'o', 't', 'a', 'l'],
        center_of_gravity_cell(plane),
        with_commas(decimal_text(plane.total_mass(), 9, 2)),
        with_commas(decimal_text(plane.total_mass_moment(), 18, 2)),
    ]
}

/// The whole load sheet.
pub open spec fn table_rows(plane: AirplaneView) -> Seq<Seq<Seq<char>>> {
    seq![header_row()] + plane.moments.map_values(|load: MomentView| moment_row(load)) + seq![
        total_row(plane),
    ]
}

/// What the cells of a row read.
pub open spec fn row_text(row: Seq<String>) -> Seq<Seq<char>> {
    row.map_values(|cell: String| cell@)
}

/// What the cells of a table read.
pub open spec fn table_text(table: Seq<Vec<String>>) -> Seq<Seq<Seq<char>>> {
    table.map_values(|row: Vec<String>| row_text(row@))
}

/// The text with a comma in place of every full stop.
pub fn decimal_commas(text: &str) -> (replaced: String)
    ensures
        replaced@ == with_commas(text@),
{
    let n = text.unicode_len();
    let mut replaced = String::new();
    let mut i: usize = 0;
    proof {
        reveal_strlit(",");
    }
    assert(replaced@ =~= with_commas(text@.take(0)));
    while i < n
        invariant
            i <= n == text@.len(),
            replaced@ == with_commas(text@.take(i as int)),
            ","@ == seq![','],
        decreases n - i,
    {
        let ghost before = replaced@;
        if text.get_char(i) == '.' {
            replaced.append(",");
        } else {
            replaced.append(text.substring_char(i, i + 1));
        }
        assert(text@.take(i + 1) =~= text@.take(i as int).push(text@[i as int]));
        assert(text@.subrange(i as int, i + 1) =~= seq![text@[i as int]]);
        assert(replaced@ =~= with_commas(text@.take(i + 1)));
        i = i + 1;
    }
    assert(text@.take(n as int) =~= text@);
    replaced
}

/// How many characters are wanting for `length` bytes to reach `total_length`.
pub open spec fn padding(length: int, total_length: int) -> nat {
    if total_length > length {
        (total_length - length) as nat
    } else {
        0
    }
}

/// The text behind as many no-break spaces as its bytes are short of
/// `total_length`.
pub fn pad_with_nbsp(text: &str, total_length: usize) -> (padded: String)
    ensures
        padded@ == Seq::new(
            padding(text.len() as int, total_length as int),
            |i: int| '\u{a0}',
        ) + text@,
{
    let length = text.len();
    let nb_spaces = if total_length > length {
        total_length - length
    } else {
        0
    };
    let mut padded = String::new();
    let mut i: usize = 0;
    proof {
        reveal_strlit("\u{a0}");
    }
    assert(padded@ =~= Seq::new(0, |i: int| '\u{a0}'));
    while i < nb_spaces
        invariant
            i <= nb_spaces,
            padded@ == Seq::new(i as nat, |i: int| '\u{a0}'),
            "\u{a0}"@ == seq!['\u{a0}'],
        decreases nb_spaces - i,
    {
        padded.append("\u{a0}");
        assert(padded@ =~= Seq::new((i + 1) as nat, |i: int| '\u{a0}'));
        i = i + 1;
    }
    padded.append(text);
    padded
}

/// The kilograms of a mass with two decimals; a mass of fuel shows its
/// volume with one decimal in brackets before them, as in `(62.0L) 44.64`.
pub open spec fn mass_label_text(mass: Mass) -> Seq<char> {
    let kilograms = decimal_text(mass.kilograms(), 9, 2);
    match mass {
        Mass::Kilo(_) => kilograms,
        Mass::Avgas(Volume::Liter(l)) | Mass::Mogas(Volume::Liter(l)) => seq!['(']
            + decimal_text(l as int, 9, 1) + seq!['L', ')', ' '] + kilograms,
        Mass::Avgas(Volume::Gallon(g)) | Mass::Mogas(Volume::Gallon(g)) => seq!['(']
            + decimal_text(g as int, 9, 1) + seq!['g', 'a', 'l', ')', ' '] + kilograms,
    }
}

/// The kilograms of a mass, behind its volume where it is fuel.
pub fn mass_label(mass: &Mass) -> (label: String)
    requires
        mass.convertible(),
    ensures
        label@ == mass_label_text(*mass),
{
    proof {
        reveal_strlit("(");
        reveal_strlit("L) ");
        reveal_strlit("gal) ");
    }
    let kilograms = format_decimal(mass.kilo(), 9, 2);
    let (volume, unit): (i128, &str) = match mass {
        Mass::Kilo(_) => {
            return kilograms;
        },
        Mass::Avgas(Volume::Liter(l)) => (*l, "L) "),
        Mass::Mogas(Volume::Liter(l)) => (*l, "L) "),
        Mass::Avgas(Volume::Gallon(g)) => (*g, "gal) "),
        Mass::Mogas(Volume::Gallon(g)) => (*g, "gal) "),
    };
    let mut label = String::from_str("(");
    label.append(format_decimal(volume, 9, 1).as_str());
    label.append(unit);
    label.append(kilograms.as_str());
    assert(label@ =~= mass_label_text(*mass));
    label
}

/// A row of four cells.
fn row_of(a: String, b: String, c: String, d: String) -> (row: Vec<String>)
    ensures
        row_text(row@) == seq![a@, b@, c@, d@],
{
    let mut row: Vec<String> = Vec::new();
    row.push(a);
    row.push(b);
    row.push(c);
    row.push(d);
    assert(row_text(row@) =~= seq![a@, b@, c@, d@]);
    row
}

/// The row of one load.
fn moment_strings(load: &Moment) -> (row: Vec<String>)
    requires
        load@.in_range(),
    ensures
        row_text(row@) == moment_row(load@),
{
    proof {
        lemma_mass_bound(load@.mass);
        reveal_strlit(" (");
        reveal_strlit(")");
        reveal_strlit("(");
        reveal_strlit(") ");
    }
    let kilograms = format_decimal(load.mass().kilo(), 9, 2);
    let (name, mass) = match load.mass() {
        Mass::Kilo(_) => (load.name().clone(), decimal_commas(kilograms.as_str())),
        Mass::Avgas(v) => {
            let mut name = load.name().clone();
            name.append(" (");
            name.append(load.mass().unit().as_str());
            name.append(")");
            assert(name@ =~= load@.name + seq![' ', '('] + load@.mass.unit_text() + seq![')']);
            let mut mass = String::from_str("(");
            mass.append(v.to_string().as_str());
            mass.append(") ");
            mass.append(kilograms.as_str());
            assert(mass@ =~= seq!['('] + v.text() + seq![')', ' '] + kilograms@);
            (decimal_commas(name.as_str()), decimal_commas(mass.as_str()))
        },
        Mass::Mogas(v) => {
            let mut name = load.name().clone();
            name.append(" (");
            name.append(load.mass().unit().as_str());
            name.append(")");
            assert(name@ =~= load@.name + seq![' ', '('] + load@.mass.unit_text() + seq![')']);
            let mut mass = String::from_str("(");
            mass.append(v.to_string().as_str());
            mass.append(") ");
            mass.append(kilograms.as_str());
            assert(mass@ =~= seq!['('] + v.text() + seq![')', ' '] + kilograms@);
            (decimal_commas(name.as_str()), decimal_commas(mass.as_str()))
        },
    };
    let arm = decimal_commas(format_decimal(load.lever_arm().meter(), 9, 4).as_str());
    let moment = decimal_commas(format_decimal(load.total().kgm(), 18, 2).as_str());
    row_of(name, arm, mass, moment)
}

/// The row that names the columns.
fn header_strings() -> (row: Vec<String>)
    ensures
        row_text(row@) == header_row(),
{
    proof {
        reveal_strlit("Name");
        reveal_strlit("Lever Arm [m]");
        reveal_strlit("Mass [kg]");
        reveal_strlit("Mass Moment [kg m]");
    }
    let row = row_of(
        String::from_str("Name"),
        String::from_str("Lever Arm [m]"),
        String::from_str("Mass [kg]"),
        String::from_str("Mass Moment [kg m]"),
    );
    assert(row_text(row@) =~~= header_row());
    row
}

/// The row of the totals.
fn total_strings(plane: &Airplane) -> (row: Vec<String>)
    requires
        plane@.in_range(),
    ensures
        row_text(row@) == total_row(plane@),
{
    proof {
        reveal_strlit("Total");
        reveal_strlit("NaN");
        reveal_strlit("inf");
        reveal_strlit("-inf");
    }
    let mass = plane.total_mass().kilo();
    let moment = plane.total_mass_moment().kgm();
    proof {
        lemma_totals_fit(plane@.moments);
    }
    let center = if mass != 0 {
        decimal_commas(format_decimal(div_floor(moment, mass), 9, 4).as_str())
    } else if moment == 0 {
        String::from_str("NaN")
    } else if moment > 0 {
        String::from_str("inf")
    } else {
        String::from_str("-inf")
    };
    assert(center@ =~= center_of_gravity_cell(plane@));
    let row = row_of(
        String::from_str("Total"),
        center,
        decimal_commas(format_decimal(mass, 9, 2).as_str()),
        decimal_commas(format_decimal(moment, 18, 2).as_str()),
    );
    assert(row_text(row@) =~~= total_row(plane@));
    row
}

/// The load sheet of the airplane: a row of column names, a row for each
/// load in order, and a row of totals.
pub fn weight_and_balance_table_strings(plane: Airplane) -> (table: Vec<Vec<String>>)
    requires
        plane@.in_range(),
    ensures
        table_text(table@) == table_rows(plane@),
{
    let mut table: Vec<Vec<String>> = Vec::new();
    table.push(header_strings());
    let moments = plane.moments();
    let ghost loads = plane@.moments;
    let n = moments.len();
    let mut i: usize = 0;
    assert(table_text(table@) =~= seq![header_row()]);
    while i < n
        invariant
            i <= n == moments.len(),
            loads == crate::airplane::moment_views(moments@),
            crate::totals::all_in_range(loads),
            table_text(table@) == seq![header_row()] + loads.take(i as int).map_values(
                |load: MomentView| moment_row(load),
            ),
        decreases n - i,
    {
        let ghost before = table_text(table@);
        assert(loads[i as int] == moments@[i as int]@);
        let row = moment_strings(&moments[i]);
        table.push(row);
        assert(table_text(table@) =~= before.push(moment_row(loads[i as int])));
        assert(loads.take(i + 1).map_values(|load: MomentView| moment_row(load))
            =~= loads.take(i as int).map_values(|load: MomentView| moment_row(load)).push(
            moment_row(loads[i as int]),
        ));
        i = i + 1;
    }
    assert(loads.take(n as int) =~= loads);
    let ghost before = table_text(table@);
    table.push(total_strings(&plane));
    assert(table_text(table@) =~= before.push(total_row(plane@)));
    assert(table_text(table@) =~= table_rows(plane@));
    table
}

} // verus!
