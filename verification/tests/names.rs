use mcp_guards::spoofing::config::{GuardConfig, WhitelistEntry};
use mcp_guards::spoofing::levenshtein::levenshtein_distance;
use mcp_guards::spoofing::state::FingerprintMap;
use mcp_guards::spoofing::typosquat::{
    detect_typosquat, is_typosquat_pattern, normalize_homoglyphs,
};

#[test]
fn edit_distances_on_a_table_of_names() {
    let table: [(&str, &str, usize); 40] = [
        ("a", "", 1),
        ("company-tools", "company-cools", 1),
        ("mail-server", "", 11),
        ("internal-search-service", "internal-search-service", 0),
        ("admin-console", "admin-console", 0),
        ("a", "", 1),
        ("payments", "payments", 0),
        ("a", "a", 0),
        ("payments", "p-ymengs", 2),
        ("payments", "payments", 0),
        ("finance-tools", "finance-tools", 0),
        ("a", "m-alserver", 9),
        ("github", "ggthub", 1),
        ("finance-tools", "finance6to9is", 3),
        ("mail-server", "nmaial-server@", 3),
        ("weather-api", "mail-server", 10),
        ("finance-tools", "Ifeinance-toolss", 3),
        ("company-tools", "admin-conxole", 9),
        ("github", "gIjthub", 2),
        ("admin-console", "admin-onsole", 1),
        ("a", "a", 0),
        ("company-tools", "compan|y-toozs", 2),
        ("a", "pyments", 7),
        ("weather-api", "weather-api", 0),
        ("payments", "payments", 0),
        ("company-tools", "compxny-tols", 2),
        ("weather-api", "weath7er-api", 1),
        ("weather-api", "|ather-apit", 3),
        ("a", "coempan8-tools", 13),
        ("github", "finanfce-tools", 12),
        ("a", "a", 0),
        ("a", "fhance-taools", 12),
        ("payments", "mail-se3rver@", 11),
        ("internal-search-service", "company-tools", 20),
        ("payments", "payments", 0),
        ("admin-console", "xaIdmvn-console", 3),
        ("a", "a", 0),
        ("admin-console", "adminconsole", 1),
        ("admin-console", "amin-consoleck", 3),
        ("company-tools", "company-to7ol0", 2),
    ];
    for (a, b, expected) in table {
        let first: Vec<char> = a.chars().collect();
        let second: Vec<char> = b.chars().collect();
        assert_eq!(levenshtein_distance(&first, &second), expected, "{:?} to {:?}", a, b);
        assert_eq!(levenshtein_distance(&second, &first), expected, "{:?} to {:?}", b, a);
    }
}

#[test]
fn homoglyph_forms_on_a_table_of_names() {
    let table = [
        ("hello", "heiio"),
        ("c0mpany", "company"),
        ("@dmin", "admin"),
        ("L1|I0l3@", "Liiioiea"),
        ("", ""),
        ("no change x", "no change x"),
        ("1337 h4x0r", "iee7 h4xor"),
        ("|||", "iii"),
        ("IlI1", "iiii"),
    ];
    for (name, expected) in table {
        assert_eq!(normalize_homoglyphs(name), expected, "form of {:?}", name);
    }
}

#[test]
fn typosquat_patterns_on_a_table_of_names() {
    let table = [
        ("admin-console", "adamin-rconsole", false),
        ("github", "githubo", false),
        ("company-tools", "compan-3ooas", false),
        ("mail-server", "mail-nserveh", false),
        ("admin-console", "atdmin-console", false),
        ("internal-search-service", "internal-search-fservicbe", false),
        ("finance-tools", "fi1anceb-0tools", false),
        ("finance-tools", "finane-tools", false),
        ("weather-api", "weather@-7p", false),
        ("company-tools", "company-9tools", false),
        ("payments", "payment", false),
        ("internal-search-service", "internl-search-serviyce", false),
        ("payments", "payment", false),
        ("payments", "paymena", false),
        ("finance-tools", "finance-tools", false),
        ("internal-search-service", "interal-searchfsevice", false),
        ("company-tools", "com4vpany-toolzs", false),
        ("mail-server", "ai0-erver", false),
        ("payments", "ayments", false),
        ("finance-tools", "finance-tools", false),
        ("payments", "paymetg", false),
        ("a", "a", false),
        ("internal-search-service", "internl-search-srvice", false),
        ("mail-server", "mail-server", false),
        ("mail-server", "mail-serr", false),
        ("admin-console", "admin-conole", false),
        ("weather-api", "weather-ap", false),
        ("github", "githuub", false),
        ("admin-console", "aimin-console", true),
        ("admin-console", "amin-console", false),
    ];
    for (approved, suspect, expected) in table {
        assert_eq!(is_typosquat_pattern(approved, suspect), expected, "{:?} / {:?}", approved, suspect);
    }
}

#[test]
fn typosquat_targets_on_a_table_of_names() {
    let whitelist = ["finance-tools", "company-tools", "weather-api", "Admin-Console", "mail-server", "internal-search-service"];
    let config = GuardConfig {
        whitelist: whitelist
            .iter()
            .map(|name| WhitelistEntry {
                name: name.to_string(),
                url_pattern: None,
                tool_fingerprints: FingerprintMap::new(),
            })
            .collect(),
        ..GuardConfig::default()
    };
    let table: [(&str, Option<&str>); 74] = [
        ("f1nance-tools", Some("finance-tools")),
        ("fin@nce-tools", Some("finance-tools")),
        ("financ3-tools", Some("finance-tools")),
        ("finance-t0ols", Some("finance-tools")),
        ("finance-to0ls", Some("finance-tools")),
        ("finance-too1s", Some("finance-tools")),
        ("FINANCE-TOOLS", None),
        ("finance-toolss", None),
        ("finance-tool", None),
        ("finanee-tols", None),
        ("f1n@nc3-t001s", None),
        ("c0mpany-tools", Some("company-tools")),
        ("comp@ny-tools", Some("company-tools")),
        ("company-t0ols", Some("company-tools")),
        ("company-to0ls", Some("company-tools")),
        ("company-too1s", Some("company-tools")),
        ("COMPANY-TOOLS", None),
        ("company-toolss", None),
        ("company-tool", None),
        ("company-tools", None),
        ("c0mp@ny-t001s", None),
        ("w3ather-api", Some("weather-api")),
        ("we@ther-api", Some("weather-api")),
        ("weath3r-api", Some("weather-api")),
        ("weather-@pi", Some("weather-api")),
        ("weather-ap1", Some("weather-api")),
        ("WEATHER-API", None),
        ("weather-apis", None),
        ("weather-ap", None),
        ("eathr-api", None),
        ("w3@th3r-@p1", None),
        ("@dmin-console", Some("Admin-Console")),
        ("adm1n-console", Some("Admin-Console")),
        ("admin-c0nsole", Some("Admin-Console")),
        ("admin-cons0le", Some("Admin-Console")),
        ("admin-conso1e", Some("Admin-Console")),
        ("admin-consol3", Some("Admin-Console")),
        ("ADMIN-CONSOLE", None),
        ("admin-consoles", None),
        ("admin-consol", None),
        ("admin-consiole", None),
        ("@dm1n-c0ns013", None),
        ("m@il-server", Some("mail-server")),
        ("ma1l-server", Some("mail-server")),
        ("mai1-server", Some("mail-server")),
        ("mail-s3rver", Some("mail-server")),
        ("mail-serv3r", Some("mail-server")),
        ("MAIL-SERVER", None),
        ("mail-servers", None),
        ("mail-serve", None),
        ("maijbl-serher", None),
        ("m@11-s3rv3r", None),
        ("1nternal-search-service", Some("internal-search-service")),
        ("int3rnal-search-service", Some("internal-search-service")),
        ("intern@l-search-service", Some("internal-search-service")),
        ("interna1-search-service", Some("internal-search-service")),
        ("internal-s3arch-service", Some("internal-search-service")),
        ("internal-se@rch-service", Some("internal-search-service")),
        ("internal-search-s3rvice", Some("internal-search-service")),
        ("internal-search-serv1ce", Some("internal-search-service")),
        ("internal-search-servic3", Some("internal-search-service")),
        ("INTERNAL-SEARCH-SERVICE", None),
        ("internal-search-services", None),
        ("internal-search-servic", None),
        ("inmternal-search-servce", None),
        ("1nt3rn@1-s3@rch-s3rv1c3", None),
        ("totally-different", None),
        ("", None),
        ("x", None),
        ("fin@nce-t00ls", None),
        ("c0mpany-t00ls", None),
        ("ma1l-server", Some("mail-server")),
        ("mai|-server", Some("mail-server")),
        ("maiI-server", Some("mail-server")),
    ];
    for (candidate, expected) in table {
        assert_eq!(
            detect_typosquat(&config, candidate).as_deref(),
            expected,
            "target of {:?}",
            candidate
        );
    }
}
