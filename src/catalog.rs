//! The built-in occupation catalog: standardized occupations with their
//! median hourly wages (in cents), category and matching keywords.

use vstd::prelude::*;

verus! {

/// Highest hourly wage, in cents, that an occupation may carry; it keeps
/// every payment computation far inside `u64`.
pub const MAX_HOURLY_WAGE: u64 = 100_000_000;

/// Broad grouping of occupations.
#[derive(Clone, Copy, Debug, PartialEq, Eq, Structural, Hash)]
pub enum OccupationCategory {
    /// Software, IT, engineering roles
    TechnologyEngineering,
    /// Finance, accounting, management, sales
    BusinessFinance,
    /// Medical, nursing, social work
    HealthcareSocialServices,
    /// Legal, media, operations, other professional
    LegalMediaOperations,
}

pub open spec fn category_name(c: OccupationCategory) -> Seq<char> {
    match c {
        OccupationCategory::TechnologyEngineering => "Technology & Engineering"@,
        OccupationCategory::BusinessFinance => "Business & Finance"@,
        OccupationCategory::HealthcareSocialServices => "Healthcare & Social Services"@,
        OccupationCategory::LegalMediaOperations => "Legal, Media & Operations"@,
    }
}

impl OccupationCategory {
    /// Human-readable name of the category.
    pub fn display_name(&self) -> (r: &'static str)
        ensures
            r@ == category_name(*self),
    {
        match self {
            OccupationCategory::TechnologyEngineering => "Technology & Engineering",
            OccupationCategory::BusinessFinance => "Business & Finance",
            OccupationCategory::HealthcareSocialServices => "Healthcare & Social Services",
            OccupationCategory::LegalMediaOperations => "Legal, Media & Operations",
        }
    }
}

/// A standardized occupation with its reference median wage.
#[derive(Debug)]
pub struct Occupation {
    /// Official occupation name.
    pub name: String,
    /// Median hourly wage, in cents.
    pub hourly_wage: u64,
    /// Category grouping.
    pub category: OccupationCategory,
    /// Lowercase phrases whose presence in an instruction suggests this
    /// occupation.
    pub keywords: Vec<&'static str>,
}

/// A usable occupation: a positive, bounded wage and at least one keyword.
pub open spec fn occupation_wf(o: Occupation) -> bool {
    &&& 0 < o.hourly_wage <= MAX_HOURLY_WAGE
    &&& o.keywords@.len() > 0
}

/// `o` is named `name`, pays `wage` cents an hour, belongs to `category`
/// and lists `keywords`, in that order.
pub open spec fn has_entry(
    o: Occupation,
    name: Seq<char>,
    wage: u64,
    category: OccupationCategory,
    keywords: Seq<Seq<char>>,
) -> bool {
    &&& o.name@ == name
    &&& o.hourly_wage == wage
    &&& o.category == category
    &&& o.keywords@.map_values(|k: &'static str| k@) == keywords
}

/// The built-in catalog, entry by entry: name, median hourly wage in cents,
/// category and keywords, in catalog order.
pub open spec fn is_reference_catalog(occs: Seq<Occupation>) -> bool {
    &&& occs.len() == 44
    &&& has_entry(
        occs[0],
        "Software Developers"@,
        6950,
        OccupationCategory::TechnologyEngineering,
        seq![
            "software"@, "code"@, "programming"@, "developer"@, "rust"@, "python"@, "javascript"@,
            "api"@, "backend"@, "frontend"@, "fullstack"@, "app"@, "application"@, "debug"@,
            "refactor"@, "implement"@, "algorithm"@,
        ],
    )
    &&& has_entry(
        occs[1],
        "Computer and Information Systems Managers"@,
        9038,
        OccupationCategory::TechnologyEngineering,
        seq![
            "it manager"@, "cto"@, "tech lead"@, "infrastructure"@, "systems"@, "devops"@,
            "cloud"@, "architecture"@, "platform"@, "enterprise"@,
        ],
    )
    &&& has_entry(
        occs[2],
        "Industrial Engineers"@,
        5187,
        OccupationCategory::TechnologyEngineering,
        seq![
            "industrial"@, "process"@, "optimization"@, "efficiency"@, "workflow"@,
            "manufacturing"@, "lean"@, "six sigma"@, "production"@,
        ],
    )
    &&& has_entry(
        occs[3],
        "Mechanical Engineers"@,
        5292,
        OccupationCategory::TechnologyEngineering,
        seq![
            "mechanical"@, "cad"@, "solidworks"@, "machinery"@, "thermal"@, "hvac"@,
            "automotive"@, "robotics"@,
        ],
    )
    &&& has_entry(
        occs[4],
        "Accountants and Auditors"@,
        4496,
        OccupationCategory::BusinessFinance,
        seq![
            "accounting"@, "audit"@, "tax"@, "bookkeeping"@, "financial statements"@, "gaap"@,
            "ledger"@, "reconciliation"@, "cpa"@,
        ],
    )
    &&& has_entry(
        occs[5],
        "Administrative Services Managers"@,
        6059,
        OccupationCategory::BusinessFinance,
        seq![
            "administrative"@, "office manager"@, "facilities"@, "operations"@, "scheduling"@,
            "coordination"@,
        ],
    )
    &&& has_entry(
        occs[6],
        "Buyers and Purchasing Agents"@,
        3929,
        OccupationCategory::BusinessFinance,
        seq![
            "procurement"@, "purchasing"@, "vendor"@, "supplier"@, "sourcing"@, "negotiation"@,
            "contracts"@,
        ],
    )
    &&& has_entry(
        occs[7],
        "Compliance Officers"@,
        4086,
        OccupationCategory::BusinessFinance,
        seq![
            "compliance"@, "regulatory"@, "audit"@, "policy"@, "governance"@, "risk"@, "sox"@,
            "gdpr"@,
        ],
    )
    &&& has_entry(
        occs[8],
        "Financial Managers"@,
        8676,
        OccupationCategory::BusinessFinance,
        seq![
            "cfo"@, "finance director"@, "treasury"@, "budget"@, "financial planning"@,
            "investment management"@,
        ],
    )
    &&& has_entry(
        occs[9],
        "Financial and Investment Analysts"@,
        5601,
        OccupationCategory::BusinessFinance,
        seq![
            "financial analysis"@, "investment"@, "portfolio"@, "stock"@, "equity"@, "valuation"@,
            "modeling"@, "dcf"@, "market research"@,
        ],
    )
    &&& has_entry(
        occs[10],
        "General and Operations Managers"@,
        6400,
        OccupationCategory::BusinessFinance,
        seq![
            "operations"@, "general manager"@, "director"@, "oversee"@, "manage"@, "strategy"@,
            "leadership"@, "business"@,
        ],
    )
    &&& has_entry(
        occs[11],
        "Market Research Analysts and Marketing Specialists"@,
        4158,
        OccupationCategory::BusinessFinance,
        seq![
            "market research"@, "marketing"@, "campaign"@, "branding"@, "seo"@, "advertising"@,
            "analytics"@, "customer"@, "segment"@,
        ],
    )
    &&& has_entry(
        occs[12],
        "Personal Financial Advisors"@,
        7702,
        OccupationCategory::BusinessFinance,
        seq![
            "financial advisor"@, "wealth"@, "retirement"@, "401k"@, "ira"@, "estate planning"@,
            "insurance"@,
        ],
    )
    &&& has_entry(
        occs[13],
        "Project Management Specialists"@,
        5197,
        OccupationCategory::BusinessFinance,
        seq![
            "project manager"@, "pmp"@, "agile"@, "scrum"@, "sprint"@, "milestone"@, "timeline"@,
            "stakeholder"@, "deliverable"@,
        ],
    )
    &&& has_entry(
        occs[14],
        "Property, Real Estate, and Community Association Managers"@,
        3977,
        OccupationCategory::BusinessFinance,
        seq![
            "property"@, "real estate"@, "landlord"@, "tenant"@, "lease"@, "hoa"@, "community"@,
        ],
    )
    &&& has_entry(
        occs[15],
        "Sales Managers"@,
        7737,
        OccupationCategory::BusinessFinance,
        seq![
            "sales manager"@, "revenue"@, "quota"@, "pipeline"@, "crm"@, "account executive"@,
            "territory"@,
        ],
    )
    &&& has_entry(
        occs[16],
        "Marketing and Sales Managers"@,
        7935,
        OccupationCategory::BusinessFinance,
        seq![
            "vp sales"@, "cmo"@, "growth"@, "go-to-market"@, "demand gen"@,
        ],
    )
    &&& has_entry(
        occs[17],
        "Financial Specialists"@,
        4812,
        OccupationCategory::BusinessFinance,
        seq![
            "financial specialist"@, "credit"@, "loan"@, "underwriting"@,
        ],
    )
    &&& has_entry(
        occs[18],
        "Securities, Commodities, and Financial Services Sales Agents"@,
        4812,
        OccupationCategory::BusinessFinance,
        seq![
            "broker"@, "securities"@, "commodities"@, "trading"@, "series 7"@,
        ],
    )
    &&& has_entry(
        occs[19],
        "Business Operations Specialists, All Other"@,
        4441,
        OccupationCategory::BusinessFinance,
        seq![
            "business analyst"@, "operations specialist"@, "process improvement"@,
        ],
    )
    &&& has_entry(
        occs[20],
        "Claims Adjusters, Examiners, and Investigators"@,
        3787,
        OccupationCategory::BusinessFinance,
        seq![
            "claims"@, "insurance"@, "adjuster"@, "investigator"@, "fraud"@,
        ],
    )
    &&& has_entry(
        occs[21],
        "Transportation, Storage, and Distribution Managers"@,
        5577,
        OccupationCategory::BusinessFinance,
        seq![
            "logistics"@, "supply chain"@, "warehouse"@, "distribution"@, "shipping"@,
            "inventory"@, "fulfillment"@,
        ],
    )
    &&& has_entry(
        occs[22],
        "Industrial Production Managers"@,
        6211,
        OccupationCategory::BusinessFinance,
        seq![
            "production manager"@, "plant manager"@, "manufacturing operations"@,
        ],
    )
    &&& has_entry(
        occs[23],
        "Lodging Managers"@,
        3724,
        OccupationCategory::BusinessFinance,
        seq![
            "hotel"@, "hospitality"@, "lodging"@, "resort"@, "concierge"@,
        ],
    )
    &&& has_entry(
        occs[24],
        "Real Estate Brokers"@,
        3977,
        OccupationCategory::BusinessFinance,
        seq![
            "real estate broker"@, "realtor"@, "mls"@, "listing"@,
        ],
    )
    &&& has_entry(
        occs[25],
        "Managers, All Other"@,
        7206,
        OccupationCategory::BusinessFinance,
        seq![
            "manager"@, "supervisor"@, "team lead"@,
        ],
    )
    &&& has_entry(
        occs[26],
        "Medical and Health Services Managers"@,
        6622,
        OccupationCategory::HealthcareSocialServices,
        seq![
            "healthcare"@, "hospital"@, "clinic"@, "medical"@, "health services"@, "patient"@,
            "hipaa"@,
        ],
    )
    &&& has_entry(
        occs[27],
        "Social and Community Service Managers"@,
        4139,
        OccupationCategory::HealthcareSocialServices,
        seq![
            "social services"@, "community"@, "nonprofit"@, "outreach"@, "case management"@,
            "welfare"@,
        ],
    )
    &&& has_entry(
        occs[28],
        "Child, Family, and School Social Workers"@,
        4139,
        OccupationCategory::HealthcareSocialServices,
        seq![
            "social worker"@, "child welfare"@, "family services"@, "school counselor"@,
        ],
    )
    &&& has_entry(
        occs[29],
        "Registered Nurses"@,
        6622,
        OccupationCategory::HealthcareSocialServices,
        seq![
            "nurse"@, "rn"@, "nursing"@, "patient care"@, "clinical"@,
        ],
    )
    &&& has_entry(
        occs[30],
        "Nurse Practitioners"@,
        6622,
        OccupationCategory::HealthcareSocialServices,
        seq![
            "np"@, "nurse practitioner"@, "aprn"@, "prescribe"@,
        ],
    )
    &&& has_entry(
        occs[31],
        "Pharmacists"@,
        6622,
        OccupationCategory::HealthcareSocialServices,
        seq![
            "pharmacy"@, "pharmacist"@, "medication"@, "prescription"@, "drug"@,
        ],
    )
    &&& has_entry(
        occs[32],
        "Medical Secretaries and Administrative Assistants"@,
        6622,
        OccupationCategory::HealthcareSocialServices,
        seq![
            "medical secretary"@, "medical records"@, "ehr"@, "scheduling appointments"@,
        ],
    )
    &&& has_entry(
        occs[33],
        "Lawyers"@,
        4441,
        OccupationCategory::LegalMediaOperations,
        seq![
            "lawyer"@, "attorney"@, "legal"@, "contract"@, "litigation"@, "counsel"@, "law"@,
            "paralegal"@,
        ],
    )
    &&& has_entry(
        occs[34],
        "Editors"@,
        7206,
        OccupationCategory::LegalMediaOperations,
        seq![
            "editor"@, "editing"@, "proofread"@, "copy edit"@, "manuscript"@, "publication"@,
        ],
    )
    &&& has_entry(
        occs[35],
        "Film and Video Editors"@,
        6815,
        OccupationCategory::LegalMediaOperations,
        seq![
            "video editor"@, "film"@, "premiere"@, "final cut"@, "davinci"@, "post-production"@,
        ],
    )
    &&& has_entry(
        occs[36],
        "Audio and Video Technicians"@,
        4186,
        OccupationCategory::LegalMediaOperations,
        seq![
            "audio"@, "video"@, "av"@, "broadcast"@, "streaming"@, "recording"@,
        ],
    )
    &&& has_entry(
        occs[37],
        "Producers and Directors"@,
        4186,
        OccupationCategory::LegalMediaOperations,
        seq![
            "producer"@, "director"@, "production"@, "creative director"@, "content"@, "show"@,
        ],
    )
    &&& has_entry(
        occs[38],
        "News Analysts, Reporters, and Journalists"@,
        6815,
        OccupationCategory::LegalMediaOperations,
        seq![
            "journalist"@, "reporter"@, "news"@, "article"@, "press"@, "interview"@, "story"@,
        ],
    )
    &&& has_entry(
        occs[39],
        "Entertainment and Recreation Managers, Except Gambling"@,
        4186,
        OccupationCategory::LegalMediaOperations,
        seq![
            "entertainment"@, "recreation"@, "event"@, "venue"@, "concert"@,
        ],
    )
    &&& has_entry(
        occs[40],
        "Recreation Workers"@,
        4186,
        OccupationCategory::LegalMediaOperations,
        seq![
            "recreation"@, "activity"@, "fitness"@, "sports"@,
        ],
    )
    &&& has_entry(
        occs[41],
        "Customer Service Representatives"@,
        4441,
        OccupationCategory::LegalMediaOperations,
        seq![
            "customer service"@, "support"@, "helpdesk"@, "ticket"@, "chat"@,
        ],
    )
    &&& has_entry(
        occs[42],
        "Private Detectives and Investigators"@,
        3787,
        OccupationCategory::LegalMediaOperations,
        seq![
            "detective"@, "investigator"@, "background check"@, "surveillance"@,
        ],
    )
    &&& has_entry(
        occs[43],
        "First-Line Supervisors of Police and Detectives"@,
        7206,
        OccupationCategory::LegalMediaOperations,
        seq![
            "police"@, "law enforcement"@, "security supervisor"@,
        ],
    )
}

fn occupation(
    name: &str,
    hourly_wage: u64,
    category: OccupationCategory,
    keywords: Vec<&'static str>,
) -> (r: Occupation)
    requires
        0 < hourly_wage <= MAX_HOURLY_WAGE,
        keywords@.len() > 0,
    ensures
        occupation_wf(r),
        r.name@ == name@,
        r.hourly_wage == hourly_wage,
        r.category == category,
        r.keywords@ == keywords@,
{
    Occupation { name: String::from_str(name), hourly_wage, category, keywords }
}

/// Software, IT and engineering roles.
fn technology_engineering() -> (r: Vec<Occupation>)
    ensures
        r@.len() == 4,
        has_entry(
            r@[0],
            "Software Developers"@,
            6950,
            OccupationCategory::TechnologyEngineering,
            seq![
                "software"@, "code"@, "programming"@, "developer"@, "rust"@, "python"@,
                "javascript"@, "api"@, "backend"@, "frontend"@, "fullstack"@, "app"@,
                "application"@, "debug"@, "refactor"@, "implement"@, "algorithm"@,
            ],
        ),
        has_entry(
            r@[1],
            "Computer and Information Systems Managers"@,
            9038,
            OccupationCategory::TechnologyEngineering,
            seq![
                "it manager"@, "cto"@, "tech lead"@, "infrastructure"@, "systems"@, "devops"@,
                "cloud"@, "architecture"@, "platform"@, "enterprise"@,
            ],
        ),
        has_entry(
            r@[2],
            "Industrial Engineers"@,
            5187,
            OccupationCategory::TechnologyEngineering,
            seq![
                "industrial"@, "process"@, "optimization"@, "efficiency"@, "workflow"@,
                "manufacturing"@, "lean"@, "six sigma"@, "production"@,
            ],
        ),
        has_entry(
            r@[3],
            "Mechanical Engineers"@,
            5292,
            OccupationCategory::TechnologyEngineering,
            seq![
                "mechanical"@, "cad"@, "solidworks"@, "machinery"@, "thermal"@, "hvac"@,
                "automotive"@, "robotics"@,
            ],
        ),
        forall|i: int| 0 <= i < r@.len() ==> occupation_wf(#[trigger] r@[i]),
{
    let mut v: Vec<Occupation> = Vec::new();
    v.push(
        occupation(
            "Software Developers",
            6950,
            OccupationCategory::TechnologyEngineering,
            vec![
            "software",
            "code",
            "programming",
            "developer",
            "rust",
            "python",
            "javascript",
            "api",
            "backend",
            "frontend",
            "fullstack",
            "app",
            "application",
            "debug",
            "refactor",
            "implement",
            "algorithm",
            ],
        ),
    );

    assert(v@[0].keywords@.map_values(|k: &'static str| k@) =~= seq![
        "software"@, "code"@, "programming"@, "developer"@, "rust"@, "python"@, "javascript"@,
        "api"@, "backend"@, "frontend"@, "fullstack"@, "app"@, "application"@, "debug"@,
        "refactor"@, "implement"@, "algorithm"@,
    ]);
    v.push(
        occupation(
            "Computer and Information Systems Managers",
            9038,
            OccupationCategory::TechnologyEngineering,
            vec![
            "it manager",
            "cto",
            "tech lead",
            "infrastructure",
            "systems",
            "devops",
            "cloud",
            "architecture",
            "platform",
            "enterprise",
            ],
        ),
    );

    assert(v@[1].keywords@.map_values(|k: &'static str| k@) =~= seq![
        "it manager"@, "cto"@, "tech lead"@, "infrastructure"@, "systems"@, "devops"@,
        "cloud"@, "architecture"@, "platform"@, "enterprise"@,
    ]);
    v.push(
        occupation(
            "Industrial Engineers",
            5187,
            OccupationCategory::TechnologyEngineering,
            vec![
            "industrial",
            "process",
            "optimization",
            "efficiency",
            "workflow",
            "manufacturing",
            "lean",
            "six sigma",
            "production",
            ],
        ),
    );

    assert(v@[2].keywords@.map_values(|k: &'static str| k@) =~= seq![
        "industrial"@, "process"@, "optimization"@, "efficiency"@, "workflow"@,
        "manufacturing"@, "lean"@, "six sigma"@, "production"@,
    ]);
    v.push(
        occupation(
            "Mechanical Engineers",
            5292,
            OccupationCategory::TechnologyEngineering,
            vec![
            "mechanical",
            "cad",
            "solidworks",
            "machinery",
            "thermal",
            "hvac",
            "automotive",
            "robotics",
            ],
        ),
    );
    assert(v@[3].keywords@.map_values(|k: &'static str| k@) =~= seq![
        "mechanical"@, "cad"@, "solidworks"@, "machinery"@, "thermal"@, "hvac"@, "automotive"@,
        "robotics"@,
    ]);
    v
}

/// Finance, accounting, management and sales roles.
fn business_finance() -> (r: Vec<Occupation>)
    ensures
        r@.len() == 22,
        has_entry(
            r@[0],
            "Accountants and Auditors"@,
            4496,
            OccupationCategory::BusinessFinance,
            seq![
                "accounting"@, "audit"@, "tax"@, "bookkeeping"@, "financial statements"@,
                "gaap"@, "ledger"@, "reconciliation"@, "cpa"@,
            ],
        ),
        has_entry(
            r@[1],
            "Administrative Services Managers"@,
            6059,
            OccupationCategory::BusinessFinance,
            seq![
                "administrative"@, "office manager"@, "facilities"@, "operations"@,
                "scheduling"@, "coordination"@,
            ],
        ),
        has_entry(
            r@[2],
            "Buyers and Purchasing Agents"@,
            3929,
            OccupationCategory::BusinessFinance,
            seq![
                "procurement"@, "purchasing"@, "vendor"@, "supplier"@, "sourcing"@,
                "negotiation"@, "contracts"@,
            ],
        ),
        has_entry(
            r@[3],
            "Compliance Officers"@,
            4086,
            OccupationCategory::BusinessFinance,
            seq![
                "compliance"@, "regulatory"@, "audit"@, "policy"@, "governance"@, "risk"@,
                "sox"@, "gdpr"@,
            ],
        ),
        has_entry(
            r@[4],
            "Financial Managers"@,
            8676,
            OccupationCategory::BusinessFinance,
            seq![
                "cfo"@, "finance director"@, "treasury"@, "budget"@, "financial planning"@,
                "investment management"@,
            ],
        ),
        has_entry(
            r@[5],
            "Financial and Investment Analysts"@,
            5601,
            OccupationCategory::BusinessFinance,
            seq![
                "financial analysis"@, "investment"@, "portfolio"@, "stock"@, "equity"@,
                "valuation"@, "modeling"@, "dcf"@, "market research"@,
            ],
        ),
        has_entry(
            r@[6],
            "General and Operations Managers"@,
            6400,
            OccupationCategory::BusinessFinance,
            seq![
                "operations"@, "general manager"@, "director"@, "oversee"@, "manage"@,
                "strategy"@, "leadership"@, "business"@,
            ],
        ),
        has_entry(
            r@[7],
            "Market Research Analysts and Marketing Specialists"@,
            4158,
            OccupationCategory::BusinessFinance,
            seq![
                "market research"@, "marketing"@, "campaign"@, "branding"@, "seo"@,
                "advertising"@, "analytics"@, "customer"@, "segment"@,
            ],
        ),
        has_entry(
            r@[8],
            "Personal Financial Advisors"@,
            7702,
            OccupationCategory::BusinessFinance,
            seq![
                "financial advisor"@, "wealth"@, "retirement"@, "401k"@, "ira"@,
                "estate planning"@, "insurance"@,
            ],
        ),
        has_entry(
            r@[9],
            "Project Management Specialists"@,
            5197,
            OccupationCategory::BusinessFinance,
            seq![
                "project manager"@, "pmp"@, "agile"@, "scrum"@, "sprint"@, "milestone"@,
                "timeline"@, "stakeholder"@, "deliverable"@,
            ],
        ),
        has_entry(
            r@[10],
            "Property, Real Estate, and Community Association Managers"@,
            3977,
            OccupationCategory::BusinessFinance,
            seq![
                "property"@, "real estate"@, "landlord"@, "tenant"@, "lease"@, "hoa"@,
                "community"@,
            ],
        ),
        has_entry(
            r@[11],
            "Sales Managers"@,
            7737,
            OccupationCategory::BusinessFinance,
            seq![
                "sales manager"@, "revenue"@, "quota"@, "pipeline"@, "crm"@,
                "account executive"@, "territory"@,
            ],
        ),
        has_entry(
            r@[12],
            "Marketing and Sales Managers"@,
            7935,
            OccupationCategory::BusinessFinance,
            seq![
                "vp sales"@, "cmo"@, "growth"@, "go-to-market"@, "demand gen"@,
            ],
        ),
        has_entry(
            r@[13],
            "Financial Specialists"@,
            4812,
            OccupationCategory::BusinessFinance,
            seq![
                "financial specialist"@, "credit"@, "loan"@, "underwriting"@,
            ],
        ),
        has_entry(
            r@[14],
            "Securities, Commodities, and Financial Services Sales Agents"@,
            4812,
            OccupationCategory::BusinessFinance,
            seq![
                "broker"@, "securities"@, "commodities"@, "trading"@, "series 7"@,
            ],
        ),
        has_entry(
            r@[15],
            "Business Operations Specialists, All Other"@,
            4441,
            OccupationCategory::BusinessFinance,
            seq![
                "business analyst"@, "operations specialist"@, "process improvement"@,
            ],
        ),
        has_entry(
            r@[16],
            "Claims Adjusters, Examiners, and Investigators"@,
            3787,
            OccupationCategory::BusinessFinance,
            seq![
                "claims"@, "insurance"@, "adjuster"@, "investigator"@, "fraud"@,
            ],
        ),
        has_entry(
            r@[17],
            "Transportation, Storage, and Distribution Managers"@,
            5577,
            OccupationCategory::BusinessFinance,
            seq![
                "logistics"@, "supply chain"@, "warehouse"@, "distribution"@, "shipping"@,
                "inventory"@, "fulfillment"@,
            ],
        ),
        has_entry(
            r@[18],
            "Industrial Production Managers"@,
            6211,
            OccupationCategory::BusinessFinance,
            seq![
                "production manager"@, "plant manager"@, "manufacturing operations"@,
            ],
        ),
        has_entry(
            r@[19],
            "Lodging Managers"@,
            3724,
            OccupationCategory::BusinessFinance,
            seq![
                "hotel"@, "hospitality"@, "lodging"@, "resort"@, "concierge"@,
            ],
        ),
        has_entry(
            r@[20],
            "Real Estate Brokers"@,
            3977,
            OccupationCategory::BusinessFinance,
            seq![
                "real estate broker"@, "realtor"@, "mls"@, "listing"@,
            ],
        ),
        has_entry(
            r@[21],
            "Managers, All Other"@,
            7206,
            OccupationCategory::BusinessFinance,
            seq![
                "manager"@, "supervisor"@, "team lead"@,
            ],
        ),
        forall|i: int| 0 <= i < r@.len() ==> occupation_wf(#[trigger] r@[i]),
{
    let mut v: Vec<Occupation> = Vec::new();
    v.push(
        occupation(
            "Accountants and Auditors",
            4496,
            OccupationCategory::BusinessFinance,
            vec![
            "accounting",
            "audit",
            "tax",
            "bookkeeping",
            "financial statements",
            "gaap",
            "ledger",
            "reconciliation",
            "cpa",
            ],
        ),
    );

    assert(v@[0].keywords@.map_values(|k: &'static str| k@) =~= seq![
        "accounting"@, "audit"@, "tax"@, "bookkeeping"@, "financial statements"@, "gaap"@,
        "ledger"@, "reconciliation"@, "cpa"@,
    ]);
    v.push(
        occupation(
            "Administrative Services Managers",
            6059,
            OccupationCategory::BusinessFinance,
            vec![
            "administrative",
            "office manager",
            "facilities",
            "operations",
            "scheduling",
            "coordination",
            ],
        ),
    );

    assert(v@[1].keywords@.map_values(|k: &'static str| k@) =~= seq![
        "administrative"@, "office manager"@, "facilities"@, "operations"@, "scheduling"@,
        "coordination"@,
    ]);
    v.push(
        occupation(
            "Buyers and Purchasing Agents",
            3929,
            OccupationCategory::BusinessFinance,
            vec![
            "procurement",
            "purchasing",
            "vendor",
            "supplier",
            "sourcing",
            "negotiation",
            "contracts",
            ],
        ),
    );

    assert(v@[2].keywords@.map_values(|k: &'static str| k@) =~= seq![
        "procurement"@, "purchasing"@, "vendor"@, "supplier"@, "sourcing"@, "negotiation"@,
        "contracts"@,
    ]);
    v.push(
        occupation(
            "Compliance Officers",
            4086,
            OccupationCategory::BusinessFinance,
            vec![
            "compliance",
            "regulatory",
            "audit",
            "policy",
            "governance",
            "risk",
            "sox",
            "gdpr",
            ],
        ),
    );

    assert(v@[3].keywords@.map_values(|k: &'static str| k@) =~= seq![
        "compliance"@, "regulatory"@, "audit"@, "policy"@, "governance"@, "risk"@, "sox"@,
        "gdpr"@,
    ]);
    v.push(
        occupation(
            "Financial Managers",
            8676,
            OccupationCategory::BusinessFinance,
            vec![
            "cfo",
            "finance director",
            "treasury",
            "budget",
            "financial planning",
            "investment management",
            ],
        ),
    );

    assert(v@[4].keywords@.map_values(|k: &'static str| k@) =~= seq![
        "cfo"@, "finance director"@, "treasury"@, "budget"@, "financial planning"@,
        "investment management"@,
    ]);
    v.push(
        occupation(
            "Financial and Investment Analysts",
            5601,
            OccupationCategory::BusinessFinance,
            vec![
            "financial analysis",
            "investment",
            "portfolio",
            "stock",
            "equity",
            "valuation",
            "modeling",
            "dcf",
            "market research",
            ],
        ),
    );

    assert(v@[5].keywords@.map_values(|k: &'static str| k@) =~= seq![
        "financial analysis"@, "investment"@, "portfolio"@, "stock"@, "equity"@, "valuation"@,
        "modeling"@, "dcf"@, "market research"@,
    ]);
    v.push(
        occupation(
            "General and Operations Managers",
            6400,
            OccupationCategory::BusinessFinance,
            vec![
            "operations",
            "general manager",
            "director",
            "oversee",
            "manage",
            "strategy",
            "leadership",
            "business",
            ],
        ),
    );

    assert(v@[6].keywords@.map_values(|k: &'static str| k@) =~= seq![
        "operations"@, "general manager"@, "director"@, "oversee"@, "manage"@, "strategy"@,
        "leadership"@, "business"@,
    ]);
    v.push(
        occupation(
            "Market Research Analysts and Marketing Specialists",
            4158,
            OccupationCategory::BusinessFinance,
            vec![
            "market research",
            "marketing",
            "campaign",
            "branding",
            "seo",
            "advertising",
            "analytics",
            "customer",
            "segment",
            ],
        ),
    );

    assert(v@[7].keywords@.map_values(|k: &'static str| k@) =~= seq![
        "market research"@, "marketing"@, "campaign"@, "branding"@, "seo"@, "advertising"@,
        "analytics"@, "customer"@, "segment"@,
    ]);
    v.push(
        occupation(
            "Personal Financial Advisors",
            7702,
            OccupationCategory::BusinessFinance,
            vec![
            "financial advisor",
            "wealth",
            "retirement",
            "401k",
            "ira",
            "estate planning",
            "insurance",
            ],
        ),
    );

    assert(v@[8].keywords@.map_values(|k: &'static str| k@) =~= seq![
        "financial advisor"@, "wealth"@, "retirement"@, "401k"@, "ira"@, "estate planning"@,
        "insurance"@,
    ]);
    v.push(
        occupation(
            "Project Management Specialists",
            5197,
            OccupationCategory::BusinessFinance,
            vec![
            "project manager",
            "pmp",
            "agile",
            "scrum",
            "sprint",
            "milestone",
            "timeline",
            "stakeholder",
            "deliverable",
            ],
        ),
    );

    assert(v@[9].keywords@.map_values(|k: &'static str| k@) =~= seq![
        "project manager"@, "pmp"@, "agile"@, "scrum"@, "sprint"@, "milestone"@, "timeline"@,
        "stakeholder"@, "deliverable"@,
    ]);
    v.push(
        occupation(
            "Property, Real Estate, and Community Association Managers",
            3977,
            OccupationCategory::BusinessFinance,
            vec![
            "property",
            "real estate",
            "landlord",
            "tenant",
            "lease",
            "hoa",
            "community",
            ],
        ),
    );

    assert(v@[10].keywords@.map_values(|k: &'static str| k@) =~= seq![
        "property"@, "real estate"@, "landlord"@, "tenant"@, "lease"@, "hoa"@, "community"@,
    ]);
    v.push(
        occupation(
            "Sales Managers",
            7737,
            OccupationCategory::BusinessFinance,
            vec![
            "sales manager",
            "revenue",
            "quota",
            "pipeline",
            "crm",
            "account executive",
            "territory",
            ],
        ),
    );

    assert(v@[11].keywords@.map_values(|k: &'static str| k@) =~= seq![
        "sales manager"@, "revenue"@, "quota"@, "pipeline"@, "crm"@, "account executive"@,
        "territory"@,
    ]);
    v.push(
        occupation(
            "Marketing and Sales Managers",
            7935,
            OccupationCategory::BusinessFinance,
            vec![
            "vp sales",
            "cmo",
            "growth",
            "go-to-market",
            "demand gen",
            ],
        ),
    );

    assert(v@[12].keywords@.map_values(|k: &'static str| k@) =~= seq![
        "vp sales"@, "cmo"@, "growth"@, "go-to-market"@, "demand gen"@,
    ]);
    v.push(
        occupation(
            "Financial Specialists",
            4812,
            OccupationCategory::BusinessFinance,
            vec![
            "financial specialist",
            "credit",
            "loan",
            "underwriting",
            ],
        ),
    );

    assert(v@[13].keywords@.map_values(|k: &'static str| k@) =~= seq![
        "financial specialist"@, "credit"@, "loan"@, "underwriting"@,
    ]);
    v.push(
        occupation(
            "Securities, Commodities, and Financial Services Sales Agents",
            4812,
            OccupationCategory::BusinessFinance,
            vec![
            "broker",
            "securities",
            "commodities",
            "trading",
            "series 7",
            ],
        ),
    );

    assert(v@[14].keywords@.map_values(|k: &'static str| k@) =~= seq![
        "broker"@, "securities"@, "commodities"@, "trading"@, "series 7"@,
    ]);
    v.push(
        occupation(
            "Business Operations Specialists, All Other",
            4441,
            OccupationCategory::BusinessFinance,
            vec![
            "business analyst",
            "operations specialist",
            "process improvement",
            ],
        ),
    );

    assert(v@[15].keywords@.map_values(|k: &'static str| k@) =~= seq![
        "business analyst"@, "operations specialist"@, "process improvement"@,
    ]);
    v.push(
        occupation(
            "Claims Adjusters, Examiners, and Investigators",
            3787,
            OccupationCategory::BusinessFinance,
            vec![
            "claims",
            "insurance",
            "adjuster",
            "investigator",
            "fraud",
            ],
        ),
    );

    assert(v@[16].keywords@.map_values(|k: &'static str| k@) =~= seq![
        "claims"@, "insurance"@, "adjuster"@, "investigator"@, "fraud"@,
    ]);
    v.push(
        occupation(
            "Transportation, Storage, and Distribution Managers",
            5577,
            OccupationCategory::BusinessFinance,
            vec![
            "logistics",
            "supply chain",
            "warehouse",
            "distribution",
            "shipping",
            "inventory",
            "fulfillment",
            ],
        ),
    );

    assert(v@[17].keywords@.map_values(|k: &'static str| k@) =~= seq![
        "logistics"@, "supply chain"@, "warehouse"@, "distribution"@, "shipping"@,
        "inventory"@, "fulfillment"@,
    ]);
    v.push(
        occupation(
            "Industrial Production Managers",
            6211,
            OccupationCategory::BusinessFinance,
            vec![
            "production manager",
            "plant manager",
            "manufacturing operations",
            ],
        ),
    );

    assert(v@[18].keywords@.map_values(|k: &'static str| k@) =~= seq![
        "production manager"@, "plant manager"@, "manufacturing operations"@,
    ]);
    v.push(
        occupation(
            "Lodging Managers",
            3724,
            OccupationCategory::BusinessFinance,
            vec![
            "hotel",
            "hospitality",
            "lodging",
            "resort",
            "concierge",
            ],
        ),
    );

    assert(v@[19].keywords@.map_values(|k: &'static str| k@) =~= seq![
        "hotel"@, "hospitality"@, "lodging"@, "resort"@, "concierge"@,
    ]);
    v.push(
        occupation(
            "Real Estate Brokers",
            3977,
            OccupationCategory::BusinessFinance,
            vec![
            "real estate broker",
            "realtor",
            "mls",
            "listing",
            ],
        ),
    );

    assert(v@[20].keywords@.map_values(|k: &'static str| k@) =~= seq![
        "real estate broker"@, "realtor"@, "mls"@, "listing"@,
    ]);
    v.push(
        occupation(
            "Managers, All Other",
            7206,
            OccupationCategory::BusinessFinance,
            vec![
            "manager",
            "supervisor",
            "team lead",
            ],
        ),
    );
    assert(v@[21].keywords@.map_values(|k: &'static str| k@) =~= seq![
        "manager"@, "supervisor"@, "team lead"@,
    ]);
    v
}

/// Medical, nursing and social-work roles.
fn healthcare_social_services() -> (r: Vec<Occupation>)
    ensures
        r@.len() == 7,
        has_entry(
            r@[0],
            "Medical and Health Services Managers"@,
            6622,
            OccupationCategory::HealthcareSocialServices,
            seq![
                "healthcare"@, "hospital"@, "clinic"@, "medical"@, "health services"@,
                "patient"@, "hipaa"@,
            ],
        ),
        has_entry(
            r@[1],
            "Social and Community Service Managers"@,
            4139,
            OccupationCategory::HealthcareSocialServices,
            seq![
                "social services"@, "community"@, "nonprofit"@, "outreach"@,
                "case management"@, "welfare"@,
            ],
        ),
        has_entry(
            r@[2],
            "Child, Family, and School Social Workers"@,
            4139,
            OccupationCategory::HealthcareSocialServices,
            seq![
                "social worker"@, "child welfare"@, "family services"@, "school counselor"@,
            ],
        ),
        has_entry(
            r@[3],
            "Registered Nurses"@,
            6622,
            OccupationCategory::HealthcareSocialServices,
            seq![
                "nurse"@, "rn"@, "nursing"@, "patient care"@, "clinical"@,
            ],
        ),
        has_entry(
            r@[4],
            "Nurse Practitioners"@,
            6622,
            OccupationCategory::HealthcareSocialServices,
            seq![
                "np"@, "nurse practitioner"@, "aprn"@, "prescribe"@,
            ],
        ),
        has_entry(
            r@[5],
            "Pharmacists"@,
            6622,
            OccupationCategory::HealthcareSocialServices,
            seq![
                "pharmacy"@, "pharmacist"@, "medication"@, "prescription"@, "drug"@,
            ],
        ),
        has_entry(
            r@[6],
            "Medical Secretaries and Administrative Assistants"@,
            6622,
            OccupationCategory::HealthcareSocialServices,
            seq![
                "medical secretary"@, "medical records"@, "ehr"@, "scheduling appointments"@,
            ],
        ),
        forall|i: int| 0 <= i < r@.len() ==> occupation_wf(#[trigger] r@[i]),
{
    let mut v: Vec<Occupation> = Vec::new();
    v.push(
        occupation(
            "Medical and Health Services Managers",
            6622,
            OccupationCategory::HealthcareSocialServices,
            vec![
            "healthcare",
            "hospital",
            "clinic",
            "medical",
            "health services",
            "patient",
            "hipaa",
            ],
        ),
    );

    assert(v@[0].keywords@.map_values(|k: &'static str| k@) =~= seq![
        "healthcare"@, "hospital"@, "clinic"@, "medical"@, "health services"@, "patient"@,
        "hipaa"@,
    ]);
    v.push(
        occupation(
            "Social and Community Service Managers",
            4139,
            OccupationCategory::HealthcareSocialServices,
            vec![
            "social services",
            "community",
            "nonprofit",
            "outreach",
            "case management",
            "welfare",
            ],
        ),
    );

    assert(v@[1].keywords@.map_values(|k: &'static str| k@) =~= seq![
        "social services"@, "community"@, "nonprofit"@, "outreach"@, "case management"@,
        "welfare"@,
    ]);
    v.push(
        occupation(
            "Child, Family, and School Social Workers",
            4139,
            OccupationCategory::HealthcareSocialServices,
            vec![
            "social worker",
            "child welfare",
            "family services",
            "school counselor",
            ],
        ),
    );

    assert(v@[2].keywords@.map_values(|k: &'static str| k@) =~= seq![
        "social worker"@, "child welfare"@, "family services"@, "school counselor"@,
    ]);
    v.push(
        occupation(
            "Registered Nurses",
            6622,
            OccupationCategory::HealthcareSocialServices,
            vec![
            "nurse",
            "rn",
            "nursing",
            "patient care",
            "clinical",
            ],
        ),
    );

    assert(v@[3].keywords@.map_values(|k: &'static str| k@) =~= seq![
        "nurse"@, "rn"@, "nursing"@, "patient care"@, "clinical"@,
    ]);
    v.push(
        occupation(
            "Nurse Practitioners",
            6622,
            OccupationCategory::HealthcareSocialServices,
            vec![
            "np",
            "nurse practitioner",
            "aprn",
            "prescribe",
            ],
        ),
    );

    assert(v@[4].keywords@.map_values(|k: &'static str| k@) =~= seq![
        "np"@, "nurse practitioner"@, "aprn"@, "prescribe"@,
    ]);
    v.push(
        occupation(
            "Pharmacists",
            6622,
            OccupationCategory::HealthcareSocialServices,
            vec![
            "pharmacy",
            "pharmacist",
            "medication",
            "prescription",
            "drug",
            ],
        ),
    );

    assert(v@[5].keywords@.map_values(|k: &'static str| k@) =~= seq![
        "pharmacy"@, "pharmacist"@, "medication"@, "prescription"@, "drug"@,
    ]);
    v.push(
        occupation(
            "Medical Secretaries and Administrative Assistants",
            6622,
            OccupationCategory::HealthcareSocialServices,
            vec![
            "medical secretary",
            "medical records",
            "ehr",
            "scheduling appointments",
            ],
        ),
    );
    assert(v@[6].keywords@.map_values(|k: &'static str| k@) =~= seq![
        "medical secretary"@, "medical records"@, "ehr"@, "scheduling appointments"@,
    ]);
    v
}

/// Legal, media, operations and other professional roles.
fn legal_media_operations() -> (r: Vec<Occupation>)
    ensures
        r@.len() == 11,
        has_entry(
            r@[0],
            "Lawyers"@,
            4441,
            OccupationCategory::LegalMediaOperations,
            seq![
                "lawyer"@, "attorney"@, "legal"@, "contract"@, "litigation"@, "counsel"@,
                "law"@, "paralegal"@,
            ],
        ),
        has_entry(
            r@[1],
            "Editors"@,
            7206,
            OccupationCategory::LegalMediaOperations,
            seq![
                "editor"@, "editing"@, "proofread"@, "copy edit"@, "manuscript"@,
                "publication"@,
            ],
        ),
        has_entry(
            r@[2],
            "Film and Video Editors"@,
            6815,
            OccupationCategory::LegalMediaOperations,
            seq![
                "video editor"@, "film"@, "premiere"@, "final cut"@, "davinci"@,
                "post-production"@,
            ],
        ),
        has_entry(
            r@[3],
            "Audio and Video Technicians"@,
            4186,
            OccupationCategory::LegalMediaOperations,
            seq![
                "audio"@, "video"@, "av"@, "broadcast"@, "streaming"@, "recording"@,
            ],
        ),
        has_entry(
            r@[4],
            "Producers and Directors"@,
            4186,
            OccupationCategory::LegalMediaOperations,
            seq![
                "producer"@, "director"@, "production"@, "creative director"@, "content"@,
                "show"@,
            ],
        ),
        has_entry(
            r@[5],
            "News Analysts, Reporters, and Journalists"@,
            6815,
            OccupationCategory::LegalMediaOperations,
            seq![
                "journalist"@, "reporter"@, "news"@, "article"@, "press"@, "interview"@,
                "story"@,
            ],
        ),
        has_entry(
            r@[6],
            "Entertainment and Recreation Managers, Except Gambling"@,
            4186,
            OccupationCategory::LegalMediaOperations,
            seq![
                "entertainment"@, "recreation"@, "event"@, "venue"@, "concert"@,
            ],
        ),
        has_entry(
            r@[7],
            "Recreation Workers"@,
            4186,
            OccupationCategory::LegalMediaOperations,
            seq![
                "recreation"@, "activity"@, "fitness"@, "sports"@,
            ],
        ),
        has_entry(
            r@[8],
            "Customer Service Representatives"@,
            4441,
            OccupationCategory::LegalMediaOperations,
            seq![
                "customer service"@, "support"@, "helpdesk"@, "ticket"@, "chat"@,
            ],
        ),
        has_entry(
            r@[9],
            "Private Detectives and Investigators"@,
            3787,
            OccupationCategory::LegalMediaOperations,
            seq![
                "detective"@, "investigator"@, "background check"@, "surveillance"@,
            ],
        ),
        has_entry(
            r@[10],
            "First-Line Supervisors of Police and Detectives"@,
            7206,
            OccupationCategory::LegalMediaOperations,
            seq![
                "police"@, "law enforcement"@, "security supervisor"@,
            ],
        ),
        forall|i: int| 0 <= i < r@.len() ==> occupation_wf(#[trigger] r@[i]),
{
    let mut v: Vec<Occupation> = Vec::new();
    v.push(
        occupation(
            "Lawyers",
            4441,
            OccupationCategory::LegalMediaOperations,
            vec![
            "lawyer",
            "attorney",
            "legal",
            "contract",
            "litigation",
            "counsel",
            "law",
            "paralegal",
            ],
        ),
    );

    assert(v@[0].keywords@.map_values(|k: &'static str| k@) =~= seq![
        "lawyer"@, "attorney"@, "legal"@, "contract"@, "litigation"@, "counsel"@, "law"@,
        "paralegal"@,
    ]);
    v.push(
        occupation(
            "Editors",
            7206,
            OccupationCategory::LegalMediaOperations,
            vec![
            "editor",
            "editing",
            "proofread",
            "copy edit",
            "manuscript",
            "publication",
            ],
        ),
    );

    assert(v@[1].keywords@.map_values(|k: &'static str| k@) =~= seq![
        "editor"@, "editing"@, "proofread"@, "copy edit"@, "manuscript"@, "publication"@,
    ]);
    v.push(
        occupation(
            "Film and Video Editors",
            6815,
            OccupationCategory::LegalMediaOperations,
            vec![
            "video editor",
            "film",
            "premiere",
            "final cut",
            "davinci",
            "post-production",
            ],
        ),
    );

    assert(v@[2].keywords@.map_values(|k: &'static str| k@) =~= seq![
        "video editor"@, "film"@, "premiere"@, "final cut"@, "davinci"@, "post-production"@,
    ]);
    v.push(
        occupation(
            "Audio and Video Technicians",
            4186,
            OccupationCategory::LegalMediaOperations,
            vec![
            "audio",
            "video",
            "av",
            "broadcast",
            "streaming",
            "recording",
            ],
        ),
    );

    assert(v@[3].keywords@.map_values(|k: &'static str| k@) =~= seq![
        "audio"@, "video"@, "av"@, "broadcast"@, "streaming"@, "recording"@,
    ]);
    v.push(
        occupation(
            "Producers and Directors",
            4186,
            OccupationCategory::LegalMediaOperations,
            vec![
            "producer",
            "director",
            "production",
            "creative director",
            "content",
            "show",
            ],
        ),
    );

    assert(v@[4].keywords@.map_values(|k: &'static str| k@) =~= seq![
        "producer"@, "director"@, "production"@, "creative director"@, "content"@, "show"@,
    ]);
    v.push(
        occupation(
            "News Analysts, Reporters, and Journalists",
            6815,
            OccupationCategory::LegalMediaOperations,
            vec![
            "journalist",
            "reporter",
            "news",
            "article",
            "press",
            "interview",
            "story",
            ],
        ),
    );

    assert(v@[5].keywords@.map_values(|k: &'static str| k@) =~= seq![
        "journalist"@, "reporter"@, "news"@, "article"@, "press"@, "interview"@, "story"@,
    ]);
    v.push(
        occupation(
            "Entertainment and Recreation Managers, Except Gambling",
            4186,
            OccupationCategory::LegalMediaOperations,
            vec![
            "entertainment",
            "recreation",
            "event",
            "venue",
            "concert",
            ],
        ),
    );

    assert(v@[6].keywords@.map_values(|k: &'static str| k@) =~= seq![
        "entertainment"@, "recreation"@, "event"@, "venue"@, "concert"@,
    ]);
    v.push(
        occupation(
            "Recreation Workers",
            4186,
            OccupationCategory::LegalMediaOperations,
            vec![
            "recreation",
            "activity",
            "fitness",
            "sports",
            ],
        ),
    );

    assert(v@[7].keywords@.map_values(|k: &'static str| k@) =~= seq![
        "recreation"@, "activity"@, "fitness"@, "sports"@,
    ]);
    v.push(
        occupation(
            "Customer Service Representatives",
            4441,
            OccupationCategory::LegalMediaOperations,
            vec![
            "customer service",
            "support",
            "helpdesk",
            "ticket",
            "chat",
            ],
        ),
    );

    assert(v@[8].keywords@.map_values(|k: &'static str| k@) =~= seq![
        "customer service"@, "support"@, "helpdesk"@, "ticket"@, "chat"@,
    ]);
    v.push(
        occupation(
            "Private Detectives and Investigators",
            3787,
            OccupationCategory::LegalMediaOperations,
            vec![
            "detective",
            "investigator",
            "background check",
            "surveillance",
            ],
        ),
    );

    assert(v@[9].keywords@.map_values(|k: &'static str| k@) =~= seq![
        "detective"@, "investigator"@, "background check"@, "surveillance"@,
    ]);
    v.push(
        occupation(
            "First-Line Supervisors of Police and Detectives",
            7206,
            OccupationCategory::LegalMediaOperations,
            vec![
            "police",
            "law enforcement",
            "security supervisor",
            ],
        ),
    );
    assert(v@[10].keywords@.map_values(|k: &'static str| k@) =~= seq![
        "police"@, "law enforcement"@, "security supervisor"@,
    ]);
    v
}

/// The full catalog, in its fixed order: technology and engineering,
/// business and finance, healthcare and social services, then legal, media
/// and operations.
pub(crate) fn load_occupations() -> (r: Vec<Occupation>)
    ensures
        is_reference_catalog(r@),
        forall|i: int| 0 <= i < r@.len() ==> occupation_wf(#[trigger] r@[i]),
{
    let mut all = technology_engineering();
    let mut more = business_finance();
    all.append(&mut more);
    let mut more = healthcare_social_services();
    all.append(&mut more);
    let mut more = legal_media_operations();
    all.append(&mut more);
    all
}

} // verus!
