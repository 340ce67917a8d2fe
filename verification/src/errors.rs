//! Error and success values shared by the resource handlers.
//!
//! One tagged union serves every resource, parameterized by the
//! resource kind, instead of a near-identical type per resource.

use vstd::prelude::*;

verus! {

/// The resource a handler was working on when it failed or succeeded.
#[derive(Clone, Copy, Debug, PartialEq, Eq, Structural)]
pub enum Resource {
    Provider,
    DeliveryZone,
    Price,
    ScrapingRun,
}

/// Failure of a resource operation, tagged with the resource it concerns.
///
/// `NotFound` reports a missing row (a 4xx condition); the other
/// variants stand for failures of the underlying store during the named
/// operation (5xx conditions).
#[derive(Clone, Copy, Debug, PartialEq, Eq, Structural)]
pub enum AppError {
    InsertError(Resource),
    FetchError(Resource),
    UpdateError(Resource),
    DeleteError(Resource),
    NotFound(Resource),
}

/// Success of a mutating resource operation, carrying the id it touched.
#[derive(Clone, Copy, Debug, PartialEq, Eq, Structural)]
pub enum AppSuccess {
    Created(Resource, i32),
    Updated(Resource, i32),
    Deleted(Resource, i32),
}

/// The resource's name as user-facing messages spell it.
pub open spec fn resource_name(r: Resource) -> Seq<char> {
    match r {
        Resource::Provider => "provider"@,
        Resource::DeliveryZone => "delivery zone"@,
        Resource::Price => "price"@,
        Resource::ScrapingRun => "scraping run"@,
    }
}

impl Resource {
    /// The resource's name as it appears in user-facing messages.
    pub fn name(&self) -> (r: String)
        ensures
            r@ == resource_name(*self),
    {
        match self {
            Resource::Provider => String::from_str("provider"),
            Resource::DeliveryZone => String::from_str("delivery zone"),
            Resource::Price => String::from_str("price"),
            Resource::ScrapingRun => String::from_str("scraping run"),
        }
    }
}

/// The decimal digit for a value below ten.
pub open spec fn digit_char(d: int) -> char {
    if d == 0 {
        '0'
    } else if d == 1 {
        '1'
    } else if d == 2 {
        '2'
    } else if d == 3 {
        '3'
    } else if d == 4 {
        '4'
    } else if d == 5 {
        '5'
    } else if d == 6 {
        '6'
    } else if d == 7 {
        '7'
    } else if d == 8 {
        '8'
    } else {
        '9'
    }
}

/// The decimal digits of a non-negative value, most significant first.
pub open spec fn dec_digits(n: int) -> Seq<char>
    recommends
        n >= 0,
    decreases n,
{
    if n < 10 {
        seq![digit_char(n)]
    } else {
        dec_digits(n / 10).push(digit_char(n % 10))
    }
}

/// The decimal spelling of an integer, with a leading minus sign when
/// negative.
pub open spec fn dec_rep(n: int) -> Seq<char> {
    if n < 0 {
        seq!['-'] + dec_digits(-n)
    } else {
        dec_digits(n)
    }
}

/// The one-character string for a decimal digit.
fn digit_str(d: u32) -> (r: &'static str)
    requires
        d < 10,
    ensures
        r@ == seq![digit_char(d as int)],
{
    match d {
        0 => {
            proof {
                reveal_strlit("0");
                assert("0"@ =~= seq!['0']);
            }
            "0"
        },
        1 => {
            proof {
                reveal_strlit("1");
                assert("1"@ =~= seq!['1']);
            }
            "1"
        },
        2 => {
            proof {
                reveal_strlit("2");
                assert("2"@ =~= seq!['2']);
            }
            "2"
        },
        3 => {
            proof {
                reveal_strlit("3");
                assert("3"@ =~= seq!['3']);
            }
            "3"
        },
        4 => {
            proof {
                reveal_strlit("4");
                assert("4"@ =~= seq!['4']);
            }
            "4"
        },
        5 => {
            proof {
                reveal_strlit("5");
                assert("5"@ =~= seq!['5']);
            }
            "5"
        },
        6 => {
            proof {
                reveal_strlit("6");
                assert("6"@ =~= seq!['6']);
            }
            "6"
        },
        7 => {
            proof {
                reveal_strlit("7");
                assert("7"@ =~= seq!['7']);
            }
            "7"
        },
        8 => {
            proof {
                reveal_strlit("8");
                assert("8"@ =~= seq!['8']);
            }
            "8"
        },
        _ => {
            proof {
                reveal_strlit("9");
                assert("9"@ =~= seq!['9']);
            }
            "9"
        },
    }
}

/// Appends the decimal digits of `m`, most significant first.
fn push_digits(m: u32, s: &mut String)
    ensures
        final(s)@ == old(s)@ + dec_digits(m as int),
    decreases m,
{
    if m < 10 {
        s.append(digit_str(m));
        proof {
            assert(final(s)@ =~= old(s)@ + dec_digits(m as int));
        }
    } else {
        let ghost mid = s@;
        push_digits(m / 10, s);
        s.append(digit_str(m % 10));
        proof {
            assert(final(s)@ =~= old(s)@ + dec_digits(m as int));
        }
    }
}

/// The decimal spelling of a 32-bit integer.
pub fn decimal_string(n: i32) -> (r: String)
    ensures
        r@ == dec_rep(n as int),
{
    let mut s = String::new();
    if n < 0 {
        proof {
            reveal_strlit("-");
            assert("-"@ =~= seq!['-']);
        }
        s.append("-");
        let m = (-(n as i64)) as u32;
        push_digits(m, &mut s);
        proof {
            assert(s@ =~= dec_rep(n as int));
        }
    } else {
        push_digits(n as u32, &mut s);
        proof {
            assert(s@ =~= dec_rep(n as int));
        }
    }
    s
}

/// The user-facing message of a failure: the failed operation, or the
/// missing row, with the resource's name.  The store model carries no
/// inner error text, so the message names the operation and the
/// resource alone.
pub open spec fn app_error_message(e: AppError) -> Seq<char> {
    match e {
        AppError::InsertError(res) => "Error while inserting "@ + resource_name(res),
        AppError::FetchError(res) => "Error while fetching "@ + resource_name(res),
        AppError::UpdateError(res) => "Error while updating "@ + resource_name(res),
        AppError::DeleteError(res) => "Error while deleting "@ + resource_name(res),
        AppError::NotFound(res) => resource_name(res) + " not found"@,
    }
}

impl AppError {
    /// The user-facing message of this failure.
    pub fn message(&self) -> (r: String)
        ensures
            r@ == app_error_message(*self),
    {
        match self {
            AppError::InsertError(res) => {
                let mut s = String::from_str("Error while inserting ");
                s.append(res.name().as_str());
                s
            },
            AppError::FetchError(res) => {
                let mut s = String::from_str("Error while fetching ");
                s.append(res.name().as_str());
                s
            },
            AppError::UpdateError(res) => {
                let mut s = String::from_str("Error while updating ");
                s.append(res.name().as_str());
                s
            },
            AppError::DeleteError(res) => {
                let mut s = String::from_str("Error while deleting ");
                s.append(res.name().as_str());
                s
            },
            AppError::NotFound(res) => {
                let mut s = res.name();
                s.append(" not found");
                s
            },
        }
    }

    /// The HTTP status this failure is reported under: a missing row is
    /// not found, every store failure is the server's fault.
    pub fn status(&self) -> (r: u16)
        ensures
            r == app_error_status(*self),
    {
        match self {
            AppError::NotFound(_) => 404,
            _ => 500,
        }
    }
}

/// The HTTP status of a resource failure: a missing row is a 404, a
/// store failure a 500.
pub open spec fn app_error_status(e: AppError) -> u16 {
    match e {
        AppError::NotFound(_) => 404,
        _ => 500,
    }
}

/// The user-facing message of a success: the operation, the resource's
/// name, and the id it touched.
pub open spec fn app_success_message(s: AppSuccess) -> Seq<char> {
    match s {
        AppSuccess::Created(res, id) => "Created "@ + resource_name(res) + " with id: "@
            + dec_rep(id as int),
        AppSuccess::Updated(res, id) => "Updated "@ + resource_name(res) + " with id: "@
            + dec_rep(id as int),
        AppSuccess::Deleted(res, id) => "Deleted "@ + resource_name(res) + " with id: "@
            + dec_rep(id as int),
    }
}

impl AppSuccess {
    /// The user-facing message of this success.
    pub fn message(&self) -> (r: String)
        ensures
            r@ == app_success_message(*self),
    {
        let (verb, res, id) = match self {
            AppSuccess::Created(res, id) => (String::from_str("Created "), res, *id),
            AppSuccess::Updated(res, id) => (String::from_str("Updated "), res, *id),
            AppSuccess::Deleted(res, id) => (String::from_str("Deleted "), res, *id),
        };
        let mut s = verb;
        s.append(res.name().as_str());
        s.append(" with id: ");
        s.append(decimal_string(id).as_str());
        proof {
            assert(s@ =~= app_success_message(*self));
        }
        s
    }

    /// The HTTP status this success is reported under: a creation is
    /// 201, an update or a delete is 200.
    pub fn status(&self) -> (r: u16)
        ensures
            r == app_success_status(*self),
    {
        match self {
            AppSuccess::Created(_, _) => 201,
            _ => 200,
        }
    }
}

/// The HTTP status of a resource success: created is 201, updated and
/// deleted are 200.
pub open spec fn app_success_status(s: AppSuccess) -> u16 {
    match s {
        AppSuccess::Created(_, _) => 201,
        _ => 200,
    }
}

} // verus!
