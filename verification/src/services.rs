//! The service risk classifier.
//!
//! A fixed table maps well-known ports to a service identity and a risk
//! tier.  The table is domain knowledge, reproduced entry for entry; the
//! specification [`known_service`] pins port, name, description and tier of
//! every classification the library hands out.

use vstd::prelude::*;

use crate::strutil::string_of;

verus! {

/// The operational danger of terminating the service on a port, ordered by
/// severity.
#[derive(Debug, Clone, Copy, PartialEq, Eq, Structural)]
pub enum RiskLevel {
    /// Development and test services, safe to kill.
    Low,
    /// May affect local applications.
    Medium,
    /// System or data services; killing is dangerous.
    High,
    /// Never kill these without explicit confirmation.
    Critical,
}

/// The plain-text label of a risk tier.
pub open spec fn risk_label(r: RiskLevel) -> Seq<char> {
    match r {
        RiskLevel::Low => "Low Risk"@,
        RiskLevel::Medium => "Medium Risk"@,
        RiskLevel::High => "High Risk"@,
        RiskLevel::Critical => "CRITICAL"@,
    }
}

/// The marker symbol of a risk tier.
pub open spec fn warning_symbol(r: RiskLevel) -> Seq<char> {
    if r == RiskLevel::Critical {
        "\u{26a0}"@
    } else {
        "\u{25cf}"@
    }
}

impl RiskLevel {
    /// The marker symbol for this tier (the presentation layer adds color).
    pub fn warning(&self) -> (r: String)
        ensures
            r@ == warning_symbol(*self),
    {
        match self {
            RiskLevel::Critical => string_of("\u{26a0}"),
            _ => string_of("\u{25cf}"),
        }
    }

    /// The label of this tier.
    pub fn label(&self) -> (r: &'static str)
        ensures
            r@ == risk_label(*self),
    {
        match self {
            RiskLevel::Low => "Low Risk",
            RiskLevel::Medium => "Medium Risk",
            RiskLevel::High => "High Risk",
            RiskLevel::Critical => "CRITICAL",
        }
    }

    /// The label of this tier as an owned string (the presentation layer
    /// adds color).
    pub fn colored_label(&self) -> (r: String)
        ensures
            r@ == risk_label(*self),
    {
        string_of(self.label())
    }
}

/// One entry of the classification table.
#[derive(Debug, Clone)]
pub struct ServiceInfo {
    /// Port number the service conventionally listens on.
    pub port: u16,
    /// Service name.
    pub name: String,
    /// Service description.
    pub description: String,
    /// Risk tier when killing it.
    pub risk: RiskLevel,
    /// Process names commonly seen for this service.
    pub process_hints: Vec<String>,
}

/// The classification of a port: name, description and risk tier of the
/// service known to live there, if any.
pub open spec fn known_service(port: u16) -> Option<(Seq<char>, Seq<char>, RiskLevel)> {
    if port == 80 {
        Some(("HTTP"@, "Web server (Apache, Nginx, IIS)"@, RiskLevel::Medium))
    } else if port == 443 {
        Some(("HTTPS"@, "Secure web server"@, RiskLevel::Medium))
    } else if port == 8080 {
        Some(("HTTP Alt"@, "Alternative HTTP / Development server"@, RiskLevel::Low))
    } else if port == 8443 {
        Some(("HTTPS Alt"@, "Alternative HTTPS"@, RiskLevel::Low))
    } else if port == 3306 {
        Some(("MySQL"@, "MySQL/MariaDB database server"@, RiskLevel::Critical))
    } else if port == 5432 {
        Some(("PostgreSQL"@, "PostgreSQL database server"@, RiskLevel::Critical))
    } else if port == 27017 {
        Some(("MongoDB"@, "MongoDB database server"@, RiskLevel::Critical))
    } else if port == 6379 {
        Some(("Redis"@, "Redis in-memory data store"@, RiskLevel::High))
    } else if port == 9200 {
        Some(("Elasticsearch"@, "Elasticsearch search engine"@, RiskLevel::High))
    } else if port == 1433 {
        Some(("MSSQL"@, "Microsoft SQL Server"@, RiskLevel::Critical))
    } else if port == 1521 {
        Some(("Oracle"@, "Oracle Database"@, RiskLevel::Critical))
    } else if port == 5984 {
        Some(("CouchDB"@, "Apache CouchDB"@, RiskLevel::High))
    } else if port == 7474 {
        Some(("Neo4j"@, "Neo4j Graph Database"@, RiskLevel::High))
    } else if port == 5672 {
        Some(("RabbitMQ"@, "RabbitMQ message broker"@, RiskLevel::High))
    } else if port == 9092 {
        Some(("Kafka"@, "Apache Kafka message broker"@, RiskLevel::High))
    } else if port == 4222 {
        Some(("NATS"@, "NATS message broker"@, RiskLevel::Medium))
    } else if port == 3000 {
        Some(("Dev Server"@, "Node.js / React / Rails dev server"@, RiskLevel::Low))
    } else if port == 4200 {
        Some(("Angular"@, "Angular development server"@, RiskLevel::Low))
    } else if port == 5000 {
        Some(("Flask/ASP.NET"@, "Flask or ASP.NET development server"@, RiskLevel::Low))
    } else if port == 5173 {
        Some(("Vite"@, "Vite development server"@, RiskLevel::Low))
    } else if port == 8000 {
        Some(("Django/PHP"@, "Django or PHP development server"@, RiskLevel::Low))
    } else if port == 9000 {
        Some(("PHP-FPM"@, "PHP FastCGI Process Manager"@, RiskLevel::Medium))
    } else if port == 2375 {
        Some(("Docker"@, "Docker daemon (unencrypted)"@, RiskLevel::Critical))
    } else if port == 2376 {
        Some(("Docker TLS"@, "Docker daemon (TLS)"@, RiskLevel::Critical))
    } else if port == 6443 {
        Some(("Kubernetes"@, "Kubernetes API server"@, RiskLevel::Critical))
    } else if port == 10250 {
        Some(("Kubelet"@, "Kubernetes Kubelet"@, RiskLevel::Critical))
    } else if port == 22 {
        Some(("SSH"@, "Secure Shell server"@, RiskLevel::Critical))
    } else if port == 21 {
        Some(("FTP"@, "FTP server"@, RiskLevel::Medium))
    } else if port == 23 {
        Some(("Telnet"@, "Telnet server (insecure)"@, RiskLevel::Medium))
    } else if port == 25 {
        Some(("SMTP"@, "Email server (SMTP)"@, RiskLevel::High))
    } else if port == 53 {
        Some(("DNS"@, "Domain Name System"@, RiskLevel::Critical))
    } else if port == 67 {
        Some(("DHCP"@, "DHCP server"@, RiskLevel::Critical))
    } else if port == 123 {
        Some(("NTP"@, "Network Time Protocol"@, RiskLevel::High))
    } else if port == 135 {
        Some(("RPC"@, "Windows RPC Endpoint Mapper"@, RiskLevel::Critical))
    } else if port == 139 {
        Some(("NetBIOS"@, "Windows NetBIOS Session"@, RiskLevel::High))
    } else if port == 445 {
        Some(("SMB"@, "Windows File Sharing (SMB)"@, RiskLevel::Critical))
    } else if port == 3389 {
        Some(("RDP"@, "Windows Remote Desktop"@, RiskLevel::Critical))
    } else if port == 9090 {
        Some(("Prometheus"@, "Prometheus monitoring"@, RiskLevel::Medium))
    } else if port == 3100 {
        Some(("Loki"@, "Grafana Loki log aggregation"@, RiskLevel::Medium))
    } else if port == 3001 {
        Some(("Grafana"@, "Grafana dashboard (alt port)"@, RiskLevel::Medium))
    } else if port == 9093 {
        Some(("Alertmanager"@, "Prometheus Alertmanager"@, RiskLevel::Medium))
    } else if port == 16686 {
        Some(("Jaeger"@, "Jaeger tracing UI"@, RiskLevel::Low))
    } else if port == 11434 {
        Some(("Ollama"@, "Ollama LLM server"@, RiskLevel::Low))
    } else if port == 1234 {
        Some(("LM Studio"@, "LM Studio local LLM"@, RiskLevel::Low))
    } else if port == 8888 {
        Some(("Jupyter"@, "Jupyter Notebook server"@, RiskLevel::Low))
    } else if port == 11211 {
        Some(("Memcached"@, "Memcached cache server"@, RiskLevel::High))
    } else if port == 9418 {
        Some(("Git"@, "Git protocol daemon"@, RiskLevel::Medium))
    } else if port == 1080 {
        Some(("SOCKS"@, "SOCKS proxy"@, RiskLevel::Medium))
    } else {
        None
    }
}

fn hints1(h0: &str) -> (r: Vec<String>) {
    let mut v: Vec<String> = Vec::new();
    v.push(string_of(h0));
    v
}

fn hints2(h0: &str, h1: &str) -> (r: Vec<String>) {
    let mut v: Vec<String> = Vec::new();
    v.push(string_of(h0));
    v.push(string_of(h1));
    v
}

fn hints3(h0: &str, h1: &str, h2: &str) -> (r: Vec<String>) {
    let mut v: Vec<String> = Vec::new();
    v.push(string_of(h0));
    v.push(string_of(h1));
    v.push(string_of(h2));
    v
}

fn hints4(h0: &str, h1: &str, h2: &str, h3: &str) -> (r: Vec<String>) {
    let mut v: Vec<String> = Vec::new();
    v.push(string_of(h0));
    v.push(string_of(h1));
    v.push(string_of(h2));
    v.push(string_of(h3));
    v
}

fn svc(port: u16, name: &str, description: &str, risk: RiskLevel, hints: Vec<String>) -> (r:
    ServiceInfo)
    ensures
        r.port == port,
        r.name@ == name@,
        r.description@ == description@,
        r.risk == risk,
{
    ServiceInfo {
        port,
        name: string_of(name),
        description: string_of(description),
        risk,
        process_hints: hints,
    }
}

/// Look up the known service on a port.
///
/// Returns an entry exactly for the ports that [`known_service`] classifies,
/// carrying that port, name, description and risk tier.
#[verifier::rlimit(60)]
pub fn lookup(port: u16) -> (r: Option<ServiceInfo>)
    ensures
        (r is Some) == (known_service(port) is Some),
        r matches Some(s) ==> known_service(port) matches Some(t) && s.port == port && s.name@
            == t.0 && s.description@ == t.1 && s.risk == t.2,
{
    if port == 80 {
        Some(svc(80, "HTTP", "Web server (Apache, Nginx, IIS)", RiskLevel::Medium, hints4("nginx", "apache", "httpd", "iis")))
    } else if port == 443 {
        Some(svc(443, "HTTPS", "Secure web server", RiskLevel::Medium, hints4("nginx", "apache", "httpd", "iis")))
    } else if port == 8080 {
        Some(svc(8080, "HTTP Alt", "Alternative HTTP / Development server", RiskLevel::Low, hints3("java", "node", "python")))
    } else if port == 8443 {
        Some(svc(8443, "HTTPS Alt", "Alternative HTTPS", RiskLevel::Low, hints2("java", "node")))
    } else if port == 3306 {
        Some(svc(3306, "MySQL", "MySQL/MariaDB database server", RiskLevel::Critical, hints3("mysqld", "mariadbd", "mysql")))
    } else if port == 5432 {
        Some(svc(5432, "PostgreSQL", "PostgreSQL database server", RiskLevel::Critical, hints2("postgres", "postgresql")))
    } else if port == 27017 {
        Some(svc(27017, "MongoDB", "MongoDB database server", RiskLevel::Critical, hints2("mongod", "mongodb")))
    } else if port == 6379 {
        Some(svc(6379, "Redis", "Redis in-memory data store", RiskLevel::High, hints2("redis-server", "redis")))
    } else if port == 9200 {
        Some(svc(9200, "Elasticsearch", "Elasticsearch search engine", RiskLevel::High, hints2("elasticsearch", "java")))
    } else if port == 1433 {
        Some(svc(1433, "MSSQL", "Microsoft SQL Server", RiskLevel::Critical, hints2("sqlservr", "mssql")))
    } else if port == 1521 {
        Some(svc(1521, "Oracle", "Oracle Database", RiskLevel::Critical, hints2("oracle", "tnslsnr")))
    } else if port == 5984 {
        Some(svc(5984, "CouchDB", "Apache CouchDB", RiskLevel::High, hints2("couchdb", "beam")))
    } else if port == 7474 {
        Some(svc(7474, "Neo4j", "Neo4j Graph Database", RiskLevel::High, hints2("neo4j", "java")))
    } else if port == 5672 {
        Some(svc(5672, "RabbitMQ", "RabbitMQ message broker", RiskLevel::High, hints3("rabbitmq", "beam", "erlang")))
    } else if port == 9092 {
        Some(svc(9092, "Kafka", "Apache Kafka message broker", RiskLevel::High, hints2("kafka", "java")))
    } else if port == 4222 {
        Some(svc(4222, "NATS", "NATS message broker", RiskLevel::Medium, hints2("nats-server", "nats")))
    } else if port == 3000 {
        Some(svc(3000, "Dev Server", "Node.js / React / Rails dev server", RiskLevel::Low, hints3("node", "ruby", "rails")))
    } else if port == 4200 {
        Some(svc(4200, "Angular", "Angular development server", RiskLevel::Low, hints2("node", "ng")))
    } else if port == 5000 {
        Some(svc(5000, "Flask/ASP.NET", "Flask or ASP.NET development server", RiskLevel::Low, hints3("python", "flask", "dotnet")))
    } else if port == 5173 {
        Some(svc(5173, "Vite", "Vite development server", RiskLevel::Low, hints2("node", "vite")))
    } else if port == 8000 {
        Some(svc(8000, "Django/PHP", "Django or PHP development server", RiskLevel::Low, hints3("python", "django", "php")))
    } else if port == 9000 {
        Some(svc(9000, "PHP-FPM", "PHP FastCGI Process Manager", RiskLevel::Medium, hints2("php-fpm", "php")))
    } else if port == 2375 {
        Some(svc(2375, "Docker", "Docker daemon (unencrypted)", RiskLevel::Critical, hints2("dockerd", "docker")))
    } else if port == 2376 {
        Some(svc(2376, "Docker TLS", "Docker daemon (TLS)", RiskLevel::Critical, hints2("dockerd", "docker")))
    } else if port == 6443 {
        Some(svc(6443, "Kubernetes", "Kubernetes API server", RiskLevel::Critical, hints2("kube-apiserver", "k8s")))
    } else if port == 10250 {
        Some(svc(10250, "Kubelet", "Kubernetes Kubelet", RiskLevel::Critical, hints1("kubelet")))
    } else if port == 22 {
        Some(svc(22, "SSH", "Secure Shell server", RiskLevel::Critical, hints2("sshd", "ssh")))
    } else if port == 21 {
        Some(svc(21, "FTP", "FTP server", RiskLevel::Medium, hints3("vsftpd", "proftpd", "ftpd")))
    } else if port == 23 {
        Some(svc(23, "Telnet", "Telnet server (insecure)", RiskLevel::Medium, hints1("telnetd")))
    } else if port == 25 {
        Some(svc(25, "SMTP", "Email server (SMTP)", RiskLevel::High, hints3("postfix", "sendmail", "exim")))
    } else if port == 53 {
        Some(svc(53, "DNS", "Domain Name System", RiskLevel::Critical, hints3("named", "bind", "dnsmasq")))
    } else if port == 67 {
        Some(svc(67, "DHCP", "DHCP server", RiskLevel::Critical, hints2("dhcpd", "dnsmasq")))
    } else if port == 123 {
        Some(svc(123, "NTP", "Network Time Protocol", RiskLevel::High, hints2("ntpd", "chronyd")))
    } else if port == 135 {
        Some(svc(135, "RPC", "Windows RPC Endpoint Mapper", RiskLevel::Critical, hints1("svchost")))
    } else if port == 139 {
        Some(svc(139, "NetBIOS", "Windows NetBIOS Session", RiskLevel::High, hints2("smbd", "svchost")))
    } else if port == 445 {
        Some(svc(445, "SMB", "Windows File Sharing (SMB)", RiskLevel::Critical, hints3("smbd", "svchost", "System")))
    } else if port == 3389 {
        Some(svc(3389, "RDP", "Windows Remote Desktop", RiskLevel::Critical, hints2("svchost", "TermService")))
    } else if port == 9090 {
        Some(svc(9090, "Prometheus", "Prometheus monitoring", RiskLevel::Medium, hints1("prometheus")))
    } else if port == 3100 {
        Some(svc(3100, "Loki", "Grafana Loki log aggregation", RiskLevel::Medium, hints1("loki")))
    } else if port == 3001 {
        Some(svc(3001, "Grafana", "Grafana dashboard (alt port)", RiskLevel::Medium, hints1("grafana")))
    } else if port == 9093 {
        Some(svc(9093, "Alertmanager", "Prometheus Alertmanager", RiskLevel::Medium, hints1("alertmanager")))
    } else if port == 16686 {
        Some(svc(16686, "Jaeger", "Jaeger tracing UI", RiskLevel::Low, hints1("jaeger")))
    } else if port == 11434 {
        Some(svc(11434, "Ollama", "Ollama LLM server", RiskLevel::Low, hints1("ollama")))
    } else if port == 1234 {
        Some(svc(1234, "LM Studio", "LM Studio local LLM", RiskLevel::Low, hints2("lm studio", "lmstudio")))
    } else if port == 8888 {
        Some(svc(8888, "Jupyter", "Jupyter Notebook server", RiskLevel::Low, hints2("jupyter", "python")))
    } else if port == 11211 {
        Some(svc(11211, "Memcached", "Memcached cache server", RiskLevel::High, hints1("memcached")))
    } else if port == 9418 {
        Some(svc(9418, "Git", "Git protocol daemon", RiskLevel::Medium, hints1("git-daemon")))
    } else if port == 1080 {
        Some(svc(1080, "SOCKS", "SOCKS proxy", RiskLevel::Medium, hints2("socks", "dante")))
    } else {
        None
    }
}

/// Every entry of the classification table, in table order.
pub fn all() -> (r: Vec<ServiceInfo>)
    ensures
        r@.len() == 49,
        forall|i: int| 0 <= i < r@.len() ==> known_service(#[trigger] r@[i].port) is Some,
{
    let mut v: Vec<ServiceInfo> = Vec::new();
    v.push(svc(80, "HTTP", "Web server (Apache, Nginx, IIS)", RiskLevel::Medium, hints4("nginx", "apache", "httpd", "iis")));
    v.push(svc(443, "HTTPS", "Secure web server", RiskLevel::Medium, hints4("nginx", "apache", "httpd", "iis")));
    v.push(svc(8080, "HTTP Alt", "Alternative HTTP / Development server", RiskLevel::Low, hints3("java", "node", "python")));
    v.push(svc(8443, "HTTPS Alt", "Alternative HTTPS", RiskLevel::Low, hints2("java", "node")));
    v.push(svc(3306, "MySQL", "MySQL/MariaDB database server", RiskLevel::Critical, hints3("mysqld", "mariadbd", "mysql")));
    v.push(svc(5432, "PostgreSQL", "PostgreSQL database server", RiskLevel::Critical, hints2("postgres", "postgresql")));
    v.push(svc(27017, "MongoDB", "MongoDB database server", RiskLevel::Critical, hints2("mongod", "mongodb")));
    v.push(svc(6379, "Redis", "Redis in-memory data store", RiskLevel::High, hints2("redis-server", "redis")));
    v.push(svc(9200, "Elasticsearch", "Elasticsearch search engine", RiskLevel::High, hints2("elasticsearch", "java")));
    v.push(svc(1433, "MSSQL", "Microsoft SQL Server", RiskLevel::Critical, hints2("sqlservr", "mssql")));
    v.push(svc(1521, "Oracle", "Oracle Database", RiskLevel::Critical, hints2("oracle", "tnslsnr")));
    v.push(svc(5984, "CouchDB", "Apache CouchDB", RiskLevel::High, hints2("couchdb", "beam")));
    v.push(svc(7474, "Neo4j", "Neo4j Graph Database", RiskLevel::High, hints2("neo4j", "java")));
    v.push(svc(5672, "RabbitMQ", "RabbitMQ message broker", RiskLevel::High, hints3("rabbitmq", "beam", "erlang")));
    v.push(svc(9092, "Kafka", "Apache Kafka message broker", RiskLevel::High, hints2("kafka", "java")));
    v.push(svc(4222, "NATS", "NATS message broker", RiskLevel::Medium, hints2("nats-server", "nats")));
    v.push(svc(3000, "Dev Server", "Node.js / React / Rails dev server", RiskLevel::Low, hints3("node", "ruby", "rails")));
    v.push(svc(4200, "Angular", "Angular development server", RiskLevel::Low, hints2("node", "ng")));
    v.push(svc(5000, "Flask/ASP.NET", "Flask or ASP.NET development server", RiskLevel::Low, hints3("python", "flask", "dotnet")));
    v.push(svc(5173, "Vite", "Vite development server", RiskLevel::Low, hints2("node", "vite")));
    v.push(svc(8000, "Django/PHP", "Django or PHP development server", RiskLevel::Low, hints3("python", "django", "php")));
    v.push(svc(9000, "PHP-FPM", "PHP FastCGI Process Manager", RiskLevel::Medium, hints2("php-fpm", "php")));
    v.push(svc(2375, "Docker", "Docker daemon (unencrypted)", RiskLevel::Critical, hints2("dockerd", "docker")));
    v.push(svc(2376, "Docker TLS", "Docker daemon (TLS)", RiskLevel::Critical, hints2("dockerd", "docker")));
    v.push(svc(6443, "Kubernetes", "Kubernetes API server", RiskLevel::Critical, hints2("kube-apiserver", "k8s")));
    v.push(svc(10250, "Kubelet", "Kubernetes Kubelet", RiskLevel::Critical, hints1("kubelet")));
    v.push(svc(22, "SSH", "Secure Shell server", RiskLevel::Critical, hints2("sshd", "ssh")));
    v.push(svc(21, "FTP", "FTP server", RiskLevel::Medium, hints3("vsftpd", "proftpd", "ftpd")));
    v.push(svc(23, "Telnet", "Telnet server (insecure)", RiskLevel::Medium, hints1("telnetd")));
    v.push(svc(25, "SMTP", "Email server (SMTP)", RiskLevel::High, hints3("postfix", "sendmail", "exim")));
    v.push(svc(53, "DNS", "Domain Name System", RiskLevel::Critical, hints3("named", "bind", "dnsmasq")));
    v.push(svc(67, "DHCP", "DHCP server", RiskLevel::Critical, hints2("dhcpd", "dnsmasq")));
    v.push(svc(123, "NTP", "Network Time Protocol", RiskLevel::High, hints2("ntpd", "chronyd")));
    v.push(svc(135, "RPC", "Windows RPC Endpoint Mapper", RiskLevel::Critical, hints1("svchost")));
    v.push(svc(139, "NetBIOS", "Windows NetBIOS Session", RiskLevel::High, hints2("smbd", "svchost")));
    v.push(svc(445, "SMB", "Windows File Sharing (SMB)", RiskLevel::Critical, hints3("smbd", "svchost", "System")));
    v.push(svc(3389, "RDP", "Windows Remote Desktop", RiskLevel::Critical, hints2("svchost", "TermService")));
    v.push(svc(9090, "Prometheus", "Prometheus monitoring", RiskLevel::Medium, hints1("prometheus")));
    v.push(svc(3100, "Loki", "Grafana Loki log aggregation", RiskLevel::Medium, hints1("loki")));
    v.push(svc(3001, "Grafana", "Grafana dashboard (alt port)", RiskLevel::Medium, hints1("grafana")));
    v.push(svc(9093, "Alertmanager", "Prometheus Alertmanager", RiskLevel::Medium, hints1("alertmanager")));
    v.push(svc(16686, "Jaeger", "Jaeger tracing UI", RiskLevel::Low, hints1("jaeger")));
    v.push(svc(11434, "Ollama", "Ollama LLM server", RiskLevel::Low, hints1("ollama")));
    v.push(svc(1234, "LM Studio", "LM Studio local LLM", RiskLevel::Low, hints2("lm studio", "lmstudio")));
    v.push(svc(8888, "Jupyter", "Jupyter Notebook server", RiskLevel::Low, hints2("jupyter", "python")));
    v.push(svc(11211, "Memcached", "Memcached cache server", RiskLevel::High, hints1("memcached")));
    v.push(svc(9418, "Git", "Git protocol daemon", RiskLevel::Medium, hints1("git-daemon")));
    v.push(svc(8888, "Proxy", "HTTP Proxy server", RiskLevel::Medium, hints2("squid", "privoxy")));
    v.push(svc(1080, "SOCKS", "SOCKS proxy", RiskLevel::Medium, hints2("socks", "dante")));
    v
}

/// True exactly when the port's known service carries tier High or
/// Critical.
pub open spec fn confirmation_required(port: u16) -> bool {
    match known_service(port) {
        Some(t) => t.2 == RiskLevel::High || t.2 == RiskLevel::Critical,
        None => false,
    }
}

/// Whether killing the service on this port needs extra confirmation: true
/// iff the port classifies to tier High or Critical, false for unknown
/// ports and for tiers Low and Medium.
pub fn requires_confirmation(port: u16) -> (r: bool)
    ensures
        r == confirmation_required(port),
{
    match lookup(port) {
        Some(s) => match s.risk {
            RiskLevel::High => true,
            RiskLevel::Critical => true,
            _ => false,
        },
        None => false,
    }
}

/// The short display name of the service known on a port.
pub fn short_name(port: u16) -> (r: Option<String>)
    ensures
        (r is Some) == (known_service(port) is Some),
        r matches Some(s) ==> known_service(port) matches Some(t) && s@ == t.0,
{
    match lookup(port) {
        Some(s) => Some(s.name),
        None => None,
    }
}

/// The one-line warning shown for a classified port: symbol, name,
/// description and risk label.
pub open spec fn warning_line(t: (Seq<char>, Seq<char>, RiskLevel)) -> Seq<char> {
    warning_symbol(t.2) + " "@ + t.0 + " - "@ + t.1 + " ("@ + risk_label(t.2) + ")"@
}

/// The warning message for a port, present exactly for classified ports.
pub fn get_warning(port: u16) -> (r: Option<String>)
    ensures
        (r is Some) == (known_service(port) is Some),
        r matches Some(w) ==> known_service(port) matches Some(t) && w@ == warning_line(t),
{
    match lookup(port) {
        Some(s) => {
            let mut w = s.risk.warning();
            w.append(" ");
            w.append(s.name.as_str());
            w.append(" - ");
            w.append(s.description.as_str());
            w.append(" (");
            w.append(s.risk.label());
            w.append(")");
            Some(w)
        },
        None => None,
    }
}


} // verus!
