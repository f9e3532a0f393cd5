use vstd::prelude::*;

use super::dto::AdminIklanPekerjaResponse;
use crate::csv::{
    append_time, escape_csv, escape_csv_spec, join_strings, join_views, opt_decimal, opt_decimal_string, or_empty,
    time_text, views,
};
use crate::moderation::opt_view;
use crate::text::push_char_checked;
use crate::wrap::{uuid_string, uuid_text};

verus! {

/// The header line of the worker-ad CSV export.
pub open spec fn csv_header() -> Seq<char> {
    "ID,Nama,Keahlian,Deskripsi,Lokasi,Tarif_Min,Tarif_Max,Status_Moderasi,Pembuat,Created_At\n"@
}

/// The fields of one line: identifier, escaped name, skills (joined by
/// "; ") and description, place, rate range, moderation status, poster and
/// creation time.
pub open spec fn csv_fields(x: AdminIklanPekerjaResponse) -> Seq<Seq<char>> {
    seq![
        uuid_text(x.id),
        escape_csv_spec(x.nama@),
        escape_csv_spec(join_views(views(x.keahlian@), "; "@)),
        escape_csv_spec(x.deskripsi@),
        or_empty(opt_view(x.lokasi)),
        opt_decimal(x.tarif_min),
        opt_decimal(x.tarif_max),
        x.moderation_status.name(),
        uuid_text(x.poster_id),
        time_text(x.created_at),
    ]
}

/// One line of the export: the fields joined by commas.
pub open spec fn csv_row(x: AdminIklanPekerjaResponse) -> Seq<char> {
    join_views(csv_fields(x), ","@) + seq!['\n']
}

/// The lines of the export, in order.
pub open spec fn csv_rows(rows: Seq<AdminIklanPekerjaResponse>) -> Seq<char>
    decreases rows.len(),
{
    if rows.len() == 0 {
        Seq::empty()
    } else {
        csv_rows(rows.drop_last()) + csv_row(rows.last())
    }
}

fn append_row(r: &mut String, x: &AdminIklanPekerjaResponse)
    ensures
        final(r)@ == old(r)@ + csv_row(*x),
{
    let mut f: Vec<String> = Vec::new();
    f.push(uuid_string(x.id));
    f.push(escape_csv(x.nama.as_str()));
    let skills = join_strings(&x.keahlian, "; ");
    f.push(escape_csv(skills.as_str()));
    f.push(escape_csv(x.deskripsi.as_str()));
    let lokasi = match &x.lokasi {
        Some(l) => l.clone(),
        None => String::new(),
    };
    f.push(lokasi);
    f.push(opt_decimal_string(x.tarif_min));
    f.push(opt_decimal_string(x.tarif_max));
    f.push(x.moderation_status.to_string());
    f.push(uuid_string(x.poster_id));
    let mut t = String::new();
    append_time(&mut t, x.created_at);
    f.push(t);
    proof {
        assert(views(f@) =~= csv_fields(*x));
    }
    let line = join_strings(&f, ",");
    r.append(line.as_str());
    push_char_checked(r, '\n');
    proof {
        assert(r@ =~= old(r)@ + csv_row(*x));
    }
}

/// The CSV document of the export: the header, then one line per ad.
pub fn export_csv(rows: &Vec<AdminIklanPekerjaResponse>) -> (r: String)
    ensures
        r@ == csv_header() + csv_rows(rows@),
{
    let mut r = "ID,Nama,Keahlian,Deskripsi,Lokasi,Tarif_Min,Tarif_Max,Status_Moderasi,Pembuat,Created_At\n".to_owned();
    let mut i: usize = 0;
    while i < rows.len()
        invariant
            i <= rows@.len(),
            r@ == csv_header() + csv_rows(rows@.take(i as int)),
        decreases rows@.len() - i,
    {
        proof {
            assert(rows@.take(i + 1).drop_last() =~= rows@.take(i as int));
        }
        append_row(&mut r, &rows[i]);
        proof {
            assert(r@ =~= csv_header() + csv_rows(rows@.take(i + 1)));
        }
        i = i + 1;
    }
    proof {
        assert(rows@.take(rows@.len() as int) =~= rows@);
    }
    r
}

} // verus!
