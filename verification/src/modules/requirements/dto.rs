//! Request shapes of the requirements API and their validation rules.
use vstd::prelude::*;

use super::domain::{RequirementKind, RequirementStatus};
use crate::decimal::DecimalValue;
use crate::ids::RequirementId;
use crate::money::Currency;
use crate::validation::{length_issue, length_ok, spec_length_ok, ValidationIssue};

verus! {

/// Query parameters for `GET /requirements`. Instants are microseconds since
/// the Unix epoch.
pub struct ListRequirementsQuery {
    pub status: Option<RequirementStatus>,
    pub kind: Option<RequirementKind>,
    /// ISO 3166-1 alpha-2 destination country, e.g. `LK`.
    pub destination_country: Option<String>,
    pub created_from: Option<i64>,
    pub created_to: Option<i64>,
    /// Case-insensitive search in the title.
    pub search: Option<String>,
    pub page: Option<u32>,
    pub limit: Option<u32>,
}

/// `(field, code)` of each issue.
pub open spec fn issue_views(issues: Seq<ValidationIssue>) -> Seq<(Seq<char>, Seq<char>)> {
    issues.map_values(|i: ValidationIssue| (i.field@, i.code@))
}

/// One `(field, code)` issue when `ok` fails, none otherwise.
pub open spec fn issue_if(ok: bool, field: Seq<char>, code: Seq<char>) -> Seq<(Seq<char>, Seq<char>)> {
    if ok {
        Seq::empty()
    } else {
        seq![(field, code)]
    }
}

/// The `length` rule on an optional text field (an absent value passes).
pub open spec fn opt_length_ok(v: Option<String>, min: Option<u64>, max: Option<u64>, equal: Option<u64>) -> bool {
    match v {
        Some(s) => spec_length_ok(s@.len(), min, max, equal),
        None => true,
    }
}

fn opt_length_ok_exec(v: &Option<String>, min: Option<u64>, max: Option<u64>, equal: Option<u64>) -> (r:
    bool)
    ensures
        r == opt_length_ok(*v, min, max, equal),
{
    match v {
        Some(s) => length_ok(s.as_str(), min, max, equal),
        None => true,
    }
}

fn push_issue(issues: &mut Vec<ValidationIssue>, issue: ValidationIssue)
    ensures
        final(issues)@ == old(issues)@.push(issue),
{
    issues.push(issue);
}

impl ListRequirementsQuery {
    pub open spec fn spec_issues(&self) -> Seq<(Seq<char>, Seq<char>)> {
        issue_if(
            opt_length_ok(self.destination_country, None, None, Some(2)),
            "destination_country"@,
            "length"@,
        ) + issue_if(opt_length_ok(self.search, Some(2), Some(100), None), "search"@, "length"@)
    }

    /// Checks the field rules: a destination country of exactly two
    /// characters and a search text of 2 to 100 characters.
    pub fn validate(&self) -> (r: Result<(), Vec<ValidationIssue>>)
        ensures
            r is Ok <==> self.spec_issues().len() == 0,
            r matches Err(issues) ==> issue_views(issues@) == self.spec_issues(),
    {
        let mut issues: Vec<ValidationIssue> = Vec::new();
        if !opt_length_ok_exec(&self.destination_country, None, None, Some(2)) {
            push_issue(&mut issues, length_issue("destination_country"));
        }
        assert(issue_views(issues@) =~= issue_if(
            opt_length_ok(self.destination_country, None, None, Some(2)),
            "destination_country"@,
            "length"@,
        ));
        if !opt_length_ok_exec(&self.search, Some(2), Some(100), None) {
            push_issue(&mut issues, length_issue("search"));
        }
        assert(issue_views(issues@) =~= self.spec_issues());
        if issues.len() == 0 {
            Ok(())
        } else {
            Err(issues)
        }
    }
}

/// Body of `POST /requirements`.
pub struct SubmitRequirementRequest {
    pub kind: RequirementKind,
    pub title: String,
    pub description: String,
    pub quantity: Option<DecimalValue>,
    pub unit_of_measure: Option<String>,
    pub target_unit_price: Option<DecimalValue>,
    /// The currency of the target price.
    pub target_currency: Option<Currency>,
    pub destination_country: String,
    pub preferred_origin: Option<String>,
    /// Days since 1970-01-01.
    pub required_by: Option<i32>,
}

/// Codes of the cross-field rules of a requirement submission, checked in this
/// order; `None` when all hold.
pub open spec fn spec_submit_rule_violation(request: SubmitRequirementRequest) -> Option<Seq<char>> {
    if request.kind == RequirementKind::Product && (request.quantity is None
        || request.unit_of_measure is None) {
        Some("product_requires_quantity_and_unit"@)
    } else if request.quantity matches Some(q) && !q.spec_is_positive() {
        Some("quantity_must_be_positive"@)
    } else if request.target_unit_price is Some && request.target_currency is None {
        Some("target_price_requires_currency"@)
    } else {
        None
    }
}

/// Cross-field shape checks. Business rules (e.g. whether the customer may
/// submit) belong to the use case, not here. The error is the rule's code.
pub fn validate_submit_request(request: &SubmitRequirementRequest) -> (r: Result<(), &'static str>)
    ensures
        r is Ok <==> spec_submit_rule_violation(*request) is None,
        r matches Err(code) ==> spec_submit_rule_violation(*request) == Some(code@),
{
    if request.kind == RequirementKind::Product && (request.quantity.is_none()
        || request.unit_of_measure.is_none()) {
        return Err("product_requires_quantity_and_unit");
    }
    if let Some(quantity) = &request.quantity {
        if !quantity.is_positive() {
            return Err("quantity_must_be_positive");
        }
    }
    if request.target_unit_price.is_some() && request.target_currency.is_none() {
        return Err("target_price_requires_currency");
    }
    Ok(())
}

/// The cross-field rules of a submission: a product needs both a quantity and
/// a unit of measure; a quantity, when given, is above zero; a target price
/// needs its currency. The first rule broken, in that order, is reported, and
/// a submission that breaks none is accepted.
pub proof fn submission_rules(request: SubmitRequirementRequest)
    ensures
        request.kind == RequirementKind::Product && (request.quantity is None
            || request.unit_of_measure is None) ==> spec_submit_rule_violation(request) == Some(
            "product_requires_quantity_and_unit"@,
        ),
        !(request.kind == RequirementKind::Product && (request.quantity is None
            || request.unit_of_measure is None)) && (request.quantity matches Some(q) && q.mantissa
            <= 0) ==> spec_submit_rule_violation(request) == Some("quantity_must_be_positive"@),
        !(request.kind == RequirementKind::Product && (request.quantity is None
            || request.unit_of_measure is None)) && !(request.quantity matches Some(q) && q.mantissa
            <= 0) && request.target_unit_price is Some && request.target_currency is None
            ==> spec_submit_rule_violation(request) == Some("target_price_requires_currency"@),
        spec_submit_rule_violation(request) is None <==> {
            &&& request.kind == RequirementKind::Product ==> request.quantity is Some
                && request.unit_of_measure is Some
            &&& request.quantity matches Some(q) ==> q.mantissa > 0
            &&& request.target_unit_price is Some ==> request.target_currency is Some
        },
{
}

impl SubmitRequirementRequest {
    pub open spec fn spec_field_issues(&self) -> Seq<(Seq<char>, Seq<char>)> {
        issue_if(spec_length_ok(self.title@.len(), Some(3), Some(200), None), "title"@, "length"@)
            + issue_if(
            spec_length_ok(self.description@.len(), Some(10), Some(10_000), None),
            "description"@,
            "length"@,
        ) + issue_if(
            opt_length_ok(self.unit_of_measure, Some(1), Some(30), None),
            "unit_of_measure"@,
            "length"@,
        ) + issue_if(
            spec_length_ok(self.destination_country@.len(), None, None, Some(2)),
            "destination_country"@,
            "length"@,
        ) + issue_if(
            opt_length_ok(self.preferred_origin, None, None, Some(2)),
            "preferred_origin"@,
            "length"@,
        )
    }

    /// All issues: the field rules and, only when every field passes, the
    /// cross-field rule (reported on `__all__`).
    pub open spec fn spec_issues(&self) -> Seq<(Seq<char>, Seq<char>)> {
        if self.spec_field_issues().len() > 0 {
            self.spec_field_issues()
        } else {
            match spec_submit_rule_violation(*self) {
                Some(code) => seq![("__all__"@, code)],
                None => Seq::empty(),
            }
        }
    }

    /// Checks the field rules (title 3 to 200 characters, description 10 to
    /// 10 000, unit of measure 1 to 30, two-letter country codes), then the
    /// cross-field rules.
    pub fn validate(&self) -> (r: Result<(), Vec<ValidationIssue>>)
        ensures
            r is Ok <==> self.spec_issues().len() == 0,
            r matches Err(issues) ==> issue_views(issues@) == self.spec_issues(),
    {
        let mut issues: Vec<ValidationIssue> = Vec::new();
        let ghost mut expected: Seq<(Seq<char>, Seq<char>)> = Seq::empty();
        if !length_ok(self.title.as_str(), Some(3), Some(200), None) {
            push_issue(&mut issues, length_issue("title"));
        }
        proof {
            expected = issue_if(
                spec_length_ok(self.title@.len(), Some(3), Some(200), None),
                "title"@,
                "length"@,
            );
        }
        assert(issue_views(issues@) =~= expected);
        if !length_ok(self.description.as_str(), Some(10), Some(10_000), None) {
            push_issue(&mut issues, length_issue("description"));
        }
        proof {
            expected = expected + issue_if(
                spec_length_ok(self.description@.len(), Some(10), Some(10_000), None),
                "description"@,
                "length"@,
            );
        }
        assert(issue_views(issues@) =~= expected);
        if !opt_length_ok_exec(&self.unit_of_measure, Some(1), Some(30), None) {
            push_issue(&mut issues, length_issue("unit_of_measure"));
        }
        proof {
            expected = expected + issue_if(
                opt_length_ok(self.unit_of_measure, Some(1), Some(30), None),
                "unit_of_measure"@,
                "length"@,
            );
        }
        assert(issue_views(issues@) =~= expected);
        if !length_ok(self.destination_country.as_str(), None, None, Some(2)) {
            push_issue(&mut issues, length_issue("destination_country"));
        }
        proof {
            expected = expected + issue_if(
                spec_length_ok(self.destination_country@.len(), None, None, Some(2)),
                "destination_country"@,
                "length"@,
            );
        }
        assert(issue_views(issues@) =~= expected);
        if !opt_length_ok_exec(&self.preferred_origin, None, None, Some(2)) {
            push_issue(&mut issues, length_issue("preferred_origin"));
        }
        proof {
            expected = expected + issue_if(
                opt_length_ok(self.preferred_origin, None, None, Some(2)),
                "preferred_origin"@,
                "length"@,
            );
        }
        assert(issue_views(issues@) =~= self.spec_field_issues());
        if issues.len() == 0 {
            match validate_submit_request(self) {
                Ok(()) => {},
                Err(code) => {
                    push_issue(&mut issues, ValidationIssue { field: "__all__", code });
                    assert(issue_views(issues@) =~= seq![("__all__"@, code@)]);
                },
            }
        }
        if issues.len() == 0 {
            Ok(())
        } else {
            Err(issues)
        }
    }
}

/// A requirement row as listed: kind and status as stored text, the creation
/// instant in microseconds since the Unix epoch, the due date in days since
/// 1970-01-01.
pub struct RequirementSummaryRow {
    pub id: RequirementId,
    pub requirement_number: String,
    pub kind: String,
    pub title: String,
    pub status: String,
    pub destination_country: String,
    pub required_by: Option<i32>,
    pub created_at: i64,
}

pub struct RequirementSummaryResponse {
    pub id: RequirementId,
    pub requirement_number: String,
    pub kind: RequirementKind,
    pub title: String,
    pub status: RequirementStatus,
    pub destination_country: String,
    pub required_by: Option<i32>,
    pub created_at: i64,
}

impl RequirementSummaryResponse {
    /// Decodes a listed row; an unknown kind or status is reported with the
    /// parser's message (kind first).
    pub fn try_from_row(row: RequirementSummaryRow) -> (r: Result<RequirementSummaryResponse, String>)
        ensures
            r is Ok <==> RequirementKind::spec_parse(row.kind@) is Some
                && RequirementStatus::spec_parse(row.status@) is Some,
            r matches Ok(resp) ==> Some(resp.kind) == RequirementKind::spec_parse(row.kind@)
                && Some(resp.status) == RequirementStatus::spec_parse(row.status@) && resp.id
                == row.id && resp.requirement_number == row.requirement_number && resp.title
                == row.title && resp.destination_country == row.destination_country
                && resp.required_by == row.required_by && resp.created_at == row.created_at,
            r matches Err(m) ==> if RequirementKind::spec_parse(row.kind@) is None {
                m@ == "unknown requirement kind `"@ + row.kind@ + "`"@
            } else {
                m@ == "unknown requirement status `"@ + row.status@ + "`"@
            },
    {
        let kind = RequirementKind::parse(row.kind.as_str())?;
        let status = RequirementStatus::parse(row.status.as_str())?;
        Ok(RequirementSummaryResponse {
            id: row.id,
            requirement_number: row.requirement_number,
            kind,
            title: row.title,
            status,
            destination_country: row.destination_country,
            required_by: row.required_by,
            created_at: row.created_at,
        })
    }
}

} // verus!
