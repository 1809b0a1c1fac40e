use vstd::prelude::*;

verus! {

/// Columns that a row is never drawn without: the highlight marker, the leading
/// space and the three separators.
pub const OVERHEAD: usize = 13;

pub const MIN_COMPANY: usize = 10;

pub const MIN_ROLE: usize = 10;

pub const MIN_LINK: usize = 14;

pub const MIN_STATUS: usize = 10;

/// The least content width at which every column gets its minimum.
pub const MIN_TOTAL: usize = 44;

/// The width below which no column of a narrow row is shrunk.
pub const FLOOR: usize = 3;

/// The widths of the four columns of a row: company, role, link, status.
pub struct Columns {
    pub company: int,
    pub role: int,
    pub link: int,
    pub status: int,
}

impl Columns {
    pub open spec fn sum(self) -> int {
        self.company + self.role + self.link + self.status
    }
}

pub open spec fn max_of(a: int, b: int) -> int {
    if a >= b {
        a
    } else {
        b
    }
}

pub open spec fn min_of(a: int, b: int) -> int {
    if a <= b {
        a
    } else {
        b
    }
}

/// What is left of `total_width` for the four columns.
pub open spec fn content_width(total_width: int) -> int {
    max_of(total_width - OVERHEAD, 0)
}

/// The split of a content width that holds every minimum: company, role and link
/// each take their minimum and three tenths of the surplus, status takes the rest.
/// Should status fall under its minimum, link gives up what is missing, down to
/// its own minimum at most.
pub open spec fn wide_columns(content: int) -> Columns {
    let extra = content - MIN_TOTAL;
    let company = MIN_COMPANY + extra * 3 / 10;
    let role = MIN_ROLE + extra * 3 / 10;
    let link = MIN_LINK + extra * 3 / 10;
    let status = max_of(content - (company + role + link), 0);
    if status < MIN_STATUS {
        let link = link - min_of(MIN_STATUS - status, link - MIN_LINK);
        Columns { company, role, link, status: max_of(content - (company + role + link), 0) }
    } else {
        Columns { company, role, link, status }
    }
}

/// The split of a content width under the combined minimum: three, three and four
/// twelfths for company, role and link, the rest for status, none under `FLOOR`;
/// what the floors add beyond `content` is taken from link, down to `FLOOR` at most.
pub open spec fn narrow_columns(content: int) -> Columns {
    let company = max_of(content * 3 / 12, FLOOR as int);
    let role = max_of(content * 3 / 12, FLOOR as int);
    let link = max_of(content * 4 / 12, FLOOR as int);
    let status = max_of(
        max_of(content - (content * 3 / 12 + content * 3 / 12 + content * 4 / 12), 0),
        FLOOR as int,
    );
    let total = company + role + link + status;
    if total > content {
        Columns { company, role, link: link - min_of(total - content, link - FLOOR), status }
    } else {
        Columns { company, role, link, status }
    }
}

/// The column widths for a row of `total_width` columns.
pub open spec fn columns_for(total_width: int) -> Columns {
    let content = content_width(total_width);
    if content == 0 {
        Columns { company: 0, role: 0, link: 0, status: 0 }
    } else if content < MIN_TOTAL {
        narrow_columns(content)
    } else {
        wide_columns(content)
    }
}

/// The widths of the company, role, link and status columns, in that order, for a
/// row of `total_width` columns.
pub fn column_widths(total_width: u16) -> (widths: (usize, usize, usize, usize))
    ensures
        widths.0 == columns_for(total_width as int).company,
        widths.1 == columns_for(total_width as int).role,
        widths.2 == columns_for(total_width as int).link,
        widths.3 == columns_for(total_width as int).status,
{
    let total_width: usize = total_width as usize;
    let content_width: usize = total_width.saturating_sub(OVERHEAD);

    if content_width == 0 {
        return (0, 0, 0, 0);
    }
    if content_width < MIN_TOTAL {
        let mut company: usize = (content_width * 3) / 12;
        let mut role: usize = (content_width * 3) / 12;
        let mut link: usize = (content_width * 4) / 12;
        let mut status: usize = content_width.saturating_sub(company + role + link);

        if company < FLOOR {
            company = FLOOR;
        }
        if role < FLOOR {
            role = FLOOR;
        }
        if link < FLOOR {
            link = FLOOR;
        }
        if status < FLOOR {
            status = FLOOR;
        }
        let total: usize = company + role + link + status;
        if total > content_width {
            let overflow: usize = total - content_width;
            let spare: usize = link - FLOOR;
            let reduce: usize = if overflow < spare {
                overflow
            } else {
                spare
            };
            link = link - reduce;
        }
        return (company, role, link, status);
    }
    let extra: usize = content_width - MIN_TOTAL;
    let company: usize = MIN_COMPANY + (extra * 3 / 10);
    let role: usize = MIN_ROLE + (extra * 3 / 10);
    let mut link: usize = MIN_LINK + (extra * 3 / 10);
    let mut status: usize = content_width.saturating_sub(company + role + link);

    if status < MIN_STATUS {
        let deficit: usize = MIN_STATUS - status;
        let spare: usize = link - MIN_LINK;
        let take: usize = if deficit < spare {
            deficit
        } else {
            spare
        };
        link = link - take;
        status = content_width.saturating_sub(company + role + link);
    }
    (company, role, link, status)
}

/// A row too small to hold anything but its overhead has four empty columns.
pub proof fn lemma_no_room_no_columns(total_width: int)
    requires
        total_width <= OVERHEAD,
    ensures
        columns_for(total_width) == (Columns { company: 0, role: 0, link: 0, status: 0 }),
{
}

/// From the threshold on, every column has at least its minimum, the columns and
/// the overhead add up to the whole width, and link never has to give anything up:
/// company, role and link each get exactly their minimum and three tenths of the
/// surplus.
pub proof fn lemma_wide_rows_fill_the_width(total_width: int)
    requires
        total_width >= OVERHEAD + MIN_TOTAL,
    ensures
        columns_for(total_width).company >= MIN_COMPANY,
        columns_for(total_width).role >= MIN_ROLE,
        columns_for(total_width).link >= MIN_LINK,
        columns_for(total_width).status >= MIN_STATUS,
        columns_for(total_width).sum() + OVERHEAD == total_width,
        columns_for(total_width).company == MIN_COMPANY + (total_width - OVERHEAD - MIN_TOTAL) * 3
            / 10,
        columns_for(total_width).role == columns_for(total_width).company,
        columns_for(total_width).link == MIN_LINK + (total_width - OVERHEAD - MIN_TOTAL) * 3 / 10,
{
}

/// At the threshold itself every column has exactly its minimum.
pub proof fn lemma_threshold_row_has_the_minimums()
    ensures
        columns_for(OVERHEAD + MIN_TOTAL) == (Columns {
            company: MIN_COMPANY as int,
            role: MIN_ROLE as int,
            link: MIN_LINK as int,
            status: MIN_STATUS as int,
        }),
{
}

/// Under the threshold no column is narrower than `FLOOR`, and company, role and
/// status are never wider than in a row at the threshold. The columns add up to
/// the content width wherever that is at least four times `FLOOR`.
pub proof fn lemma_narrow_rows_keep_the_floor(total_width: int)
    requires
        OVERHEAD < total_width < OVERHEAD + MIN_TOTAL,
    ensures
        columns_for(total_width).company >= FLOOR,
        columns_for(total_width).role >= FLOOR,
        columns_for(total_width).link >= FLOOR,
        columns_for(total_width).status >= FLOOR,
        columns_for(total_width).company <= MIN_COMPANY,
        columns_for(total_width).role <= MIN_ROLE,
        columns_for(total_width).status <= MIN_STATUS,
        total_width - OVERHEAD >= 4 * FLOOR ==> columns_for(total_width).sum() + OVERHEAD
            == total_width,
{
}

/// The three percentages that centre a part of `percent` hundredths: what is left
/// is halved, rounding down, and put before and after it.
pub open spec fn centered_shares(percent: int) -> (int, int, int) {
    ((100 - percent) / 2, percent, (100 - percent) / 2)
}

/// The percentages, in order, of the margin before a centred part of `percent`
/// hundredths, of the part itself and of the margin after it.
pub fn centered_percentages(percent: u16) -> (shares: (u16, u16, u16))
    requires
        percent <= 100,
    ensures
        (shares.0 as int, shares.1 as int, shares.2 as int) == centered_shares(percent as int),
        shares.0 + shares.1 + shares.2 <= 100,
{
    ((100 - percent) / 2, percent, (100 - percent) / 2)
}

} // verus!
