//! Display names of subject categories.

use vstd::prelude::*;
use vstd::hash_map::StringHashMap;
use crate::text::{before, take_before, to_uppercase, uppercase};

verus! {

/// Display names by category code.
pub type Names = Map<Seq<char>, Seq<char>>;

/// The names held by a category map, by category code.
pub open spec fn names_of(m: StringHashMap<String>) -> Names {
    m@.map_values(|name: String| name@)
}

/// Records `name` as the display name of `code`.
fn put(m: &mut StringHashMap<String>, code: &str, name: &str)
    ensures
        names_of(*final(m)) == names_of(*old(m)).insert(code@, name@),
{
    m.insert(String::from_str(code), String::from_str(name));
    assert(names_of(*m) =~= names_of(*old(m)).insert(code@, name@));
}

/// Computer science.
pub open spec fn with_computer_science(base: Names) -> Names {
    base
        .insert("cs.AI"@, "Artificial Intelligence"@)
        .insert("cs.AR"@, "Hardware Architecture"@)
        .insert("cs.CC"@, "Computational Complexity"@)
        .insert("cs.CE"@, "Computational Engineering, Finance, and Science"@)
        .insert("cs.CG"@, "Computational Geometry"@)
        .insert("cs.CL"@, "Computation and Language"@)
        .insert("cs.CR"@, "Cryptography and Security"@)
        .insert("cs.CV"@, "Computer Vision and Pattern Recognition"@)
        .insert("cs.CY"@, "Computers and Society"@)
        .insert("cs.DB"@, "Databases"@)
        .insert("cs.DC"@, "Distributed, Parallel, and Cluster Computing"@)
        .insert("cs.DL"@, "Digital Libraries"@)
        .insert("cs.DM"@, "Discrete Mathematics"@)
        .insert("cs.DS"@, "Data Structures and Algorithms"@)
        .insert("cs.ET"@, "Emerging Technologies"@)
        .insert("cs.FL"@, "Formal Languages and Automata Theory"@)
        .insert("cs.GL"@, "General Literature"@)
        .insert("cs.GR"@, "Graphics"@)
        .insert("cs.GT"@, "Computer Science and Game Theory"@)
        .insert("cs.HC"@, "Human-Computer Interaction"@)
        .insert("cs.IR"@, "Information Retrieval"@)
        .insert("cs.IT"@, "Information Theory"@)
        .insert("cs.LG"@, "Machine Learning"@)
        .insert("cs.LO"@, "Logic in Computer Science"@)
        .insert("cs.MA"@, "Multiagent Systems"@)
        .insert("cs.MM"@, "Multimedia"@)
        .insert("cs.MS"@, "Mathematical Software"@)
        .insert("cs.NA"@, "Numerical Analysis"@)
        .insert("cs.NE"@, "Neural and Evolutionary Computing"@)
        .insert("cs.NI"@, "Networking and Internet Architecture"@)
        .insert("cs.OH"@, "Other Computer Science"@)
        .insert("cs.OS"@, "Operating Systems"@)
        .insert("cs.PF"@, "Performance"@)
        .insert("cs.PL"@, "Programming Languages"@)
        .insert("cs.RO"@, "Robotics"@)
        .insert("cs.SC"@, "Symbolic Computation"@)
        .insert("cs.SD"@, "Sound"@)
        .insert("cs.SE"@, "Software Engineering"@)
        .insert("cs.SI"@, "Social and Information Networks"@)
        .insert("cs.SY"@, "Systems and Control"@)
}

fn add_computer_science(m: &mut StringHashMap<String>)
    ensures
        names_of(*final(m)) == with_computer_science(names_of(*old(m))),
{
    put(m, "cs.AI", "Artificial Intelligence");
    put(m, "cs.AR", "Hardware Architecture");
    put(m, "cs.CC", "Computational Complexity");
    put(m, "cs.CE", "Computational Engineering, Finance, and Science");
    put(m, "cs.CG", "Computational Geometry");
    put(m, "cs.CL", "Computation and Language");
    put(m, "cs.CR", "Cryptography and Security");
    put(m, "cs.CV", "Computer Vision and Pattern Recognition");
    put(m, "cs.CY", "Computers and Society");
    put(m, "cs.DB", "Databases");
    put(m, "cs.DC", "Distributed, Parallel, and Cluster Computing");
    put(m, "cs.DL", "Digital Libraries");
    put(m, "cs.DM", "Discrete Mathematics");
    put(m, "cs.DS", "Data Structures and Algorithms");
    put(m, "cs.ET", "Emerging Technologies");
    put(m, "cs.FL", "Formal Languages and Automata Theory");
    put(m, "cs.GL", "General Literature");
    put(m, "cs.GR", "Graphics");
    put(m, "cs.GT", "Computer Science and Game Theory");
    put(m, "cs.HC", "Human-Computer Interaction");
    put(m, "cs.IR", "Information Retrieval");
    put(m, "cs.IT", "Information Theory");
    put(m, "cs.LG", "Machine Learning");
    put(m, "cs.LO", "Logic in Computer Science");
    put(m, "cs.MA", "Multiagent Systems");
    put(m, "cs.MM", "Multimedia");
    put(m, "cs.MS", "Mathematical Software");
    put(m, "cs.NA", "Numerical Analysis");
    put(m, "cs.NE", "Neural and Evolutionary Computing");
    put(m, "cs.NI", "Networking and Internet Architecture");
    put(m, "cs.OH", "Other Computer Science");
    put(m, "cs.OS", "Operating Systems");
    put(m, "cs.PF", "Performance");
    put(m, "cs.PL", "Programming Languages");
    put(m, "cs.RO", "Robotics");
    put(m, "cs.SC", "Symbolic Computation");
    put(m, "cs.SD", "Sound");
    put(m, "cs.SE", "Software Engineering");
    put(m, "cs.SI", "Social and Information Networks");
    put(m, "cs.SY", "Systems and Control");
}

/// Mathematics.
pub open spec fn with_mathematics(base: Names) -> Names {
    base
        .insert("math.AC"@, "Commutative Algebra"@)
        .insert("math.AG"@, "Algebraic Geometry"@)
        .insert("math.AP"@, "Analysis of PDEs"@)
        .insert("math.AT"@, "Algebraic Topology"@)
        .insert("math.CA"@, "Classical Analysis and ODEs"@)
        .insert("math.CO"@, "Combinatorics"@)
        .insert("math.CT"@, "Category Theory"@)
        .insert("math.CV"@, "Complex Variables"@)
        .insert("math.DG"@, "Differential Geometry"@)
        .insert("math.DS"@, "Dynamical Systems"@)
        .insert("math.FA"@, "Functional Analysis"@)
        .insert("math.GM"@, "General Mathematics"@)
        .insert("math.GN"@, "General Topology"@)
        .insert("math.GR"@, "Group Theory"@)
        .insert("math.GT"@, "Geometric Topology"@)
        .insert("math.HO"@, "History and Overview"@)
        .insert("math.IT"@, "Information Theory"@)
        .insert("math.KT"@, "K-Theory and Homology"@)
        .insert("math.LO"@, "Logic"@)
        .insert("math.MG"@, "Metric Geometry"@)
        .insert("math.MP"@, "Mathematical Physics"@)
        .insert("math.NA"@, "Numerical Analysis"@)
        .insert("math.NT"@, "Number Theory"@)
        .insert("math.OA"@, "Operator Algebras"@)
        .insert("math.OC"@, "Optimization and Control"@)
        .insert("math.PR"@, "Probability"@)
        .insert("math.QA"@, "Quantum Algebra"@)
        .insert("math.RA"@, "Rings and Algebras"@)
        .insert("math.RT"@, "Representation Theory"@)
        .insert("math.SG"@, "Symplectic Geometry"@)
        .insert("math.SP"@, "Spectral Theory"@)
        .insert("math.ST"@, "Statistics Theory"@)
}

fn add_mathematics(m: &mut StringHashMap<String>)
    ensures
        names_of(*final(m)) == with_mathematics(names_of(*old(m))),
{
    put(m, "math.AC", "Commutative Algebra");
    put(m, "math.AG", "Algebraic Geometry");
    put(m, "math.AP", "Analysis of PDEs");
    put(m, "math.AT", "Algebraic Topology");
    put(m, "math.CA", "Classical Analysis and ODEs");
    put(m, "math.CO", "Combinatorics");
    put(m, "math.CT", "Category Theory");
    put(m, "math.CV", "Complex Variables");
    put(m, "math.DG", "Differential Geometry");
    put(m, "math.DS", "Dynamical Systems");
    put(m, "math.FA", "Functional Analysis");
    put(m, "math.GM", "General Mathematics");
    put(m, "math.GN", "General Topology");
    put(m, "math.GR", "Group Theory");
    put(m, "math.GT", "Geometric Topology");
    put(m, "math.HO", "History and Overview");
    put(m, "math.IT", "Information Theory");
    put(m, "math.KT", "K-Theory and Homology");
    put(m, "math.LO", "Logic");
    put(m, "math.MG", "Metric Geometry");
    put(m, "math.MP", "Mathematical Physics");
    put(m, "math.NA", "Numerical Analysis");
    put(m, "math.NT", "Number Theory");
    put(m, "math.OA", "Operator Algebras");
    put(m, "math.OC", "Optimization and Control");
    put(m, "math.PR", "Probability");
    put(m, "math.QA", "Quantum Algebra");
    put(m, "math.RA", "Rings and Algebras");
    put(m, "math.RT", "Representation Theory");
    put(m, "math.SG", "Symplectic Geometry");
    put(m, "math.SP", "Spectral Theory");
    put(m, "math.ST", "Statistics Theory");
}

/// Physics, astrophysics and nonlinear sciences.
pub open spec fn with_physics(base: Names) -> Names {
    base
        .insert("astro-ph"@, "Astrophysics"@)
        .insert("astro-ph.CO"@, "Cosmology and Nongalactic Astrophysics"@)
        .insert("astro-ph.EP"@, "Earth and Planetary Astrophysics"@)
        .insert("astro-ph.GA"@, "Astrophysics of Galaxies"@)
        .insert("astro-ph.HE"@, "High Energy Astrophysical Phenomena"@)
        .insert("astro-ph.IM"@, "Instrumentation and Methods for Astrophysics"@)
        .insert("astro-ph.SR"@, "Solar and Stellar Astrophysics"@)
        .insert("cond-mat.dis-nn"@, "Disordered Systems and Neural Networks"@)
        .insert("cond-mat.mes-hall"@, "Mesoscale and Nanoscale Physics"@)
        .insert("cond-mat.mtrl-sci"@, "Materials Science"@)
        .insert("cond-mat.other"@, "Other Condensed Matter"@)
        .insert("cond-mat.quant-gas"@, "Quantum Gases"@)
        .insert("cond-mat.soft"@, "Soft Condensed Matter"@)
        .insert("cond-mat.stat-mech"@, "Statistical Mechanics"@)
        .insert("cond-mat.str-el"@, "Strongly Correlated Electrons"@)
        .insert("cond-mat.supr-con"@, "Superconductivity"@)
        .insert("gr-qc"@, "General Relativity and Quantum Cosmology"@)
        .insert("hep-ex"@, "High Energy Physics - Experiment"@)
        .insert("hep-lat"@, "High Energy Physics - Lattice"@)
        .insert("hep-ph"@, "High Energy Physics - Phenomenology"@)
        .insert("hep-th"@, "High Energy Physics - Theory"@)
        .insert("math-ph"@, "Mathematical Physics"@)
        .insert("nlin.AO"@, "Adaptation and Self-Organizing Systems"@)
        .insert("nlin.CD"@, "Chaotic Dynamics"@)
        .insert("nlin.CG"@, "Cellular Automata and Lattice Gases"@)
        .insert("nlin.PS"@, "Pattern Formation and Solitons"@)
        .insert("nlin.SI"@, "Exactly Solvable and Integrable Systems"@)
        .insert("nucl-ex"@, "Nuclear Experiment"@)
        .insert("nucl-th"@, "Nuclear Theory"@)
        .insert("physics.acc-ph"@, "Accelerator Physics"@)
        .insert("physics.ao-ph"@, "Atmospheric and Oceanic Physics"@)
        .insert("physics.app-ph"@, "Applied Physics"@)
        .insert("physics.atm-clus"@, "Atomic and Molecular Clusters"@)
        .insert("physics.atom-ph"@, "Atomic Physics"@)
        .insert("physics.bio-ph"@, "Biological Physics"@)
        .insert("physics.chem-ph"@, "Chemical Physics"@)
        .insert("physics.class-ph"@, "Classical Physics"@)
        .insert("physics.comp-ph"@, "Computational Physics"@)
        .insert("physics.data-an"@, "Data Analysis, Statistics and Probability"@)
        .insert("physics.ed-ph"@, "Physics Education"@)
        .insert("physics.flu-dyn"@, "Fluid Dynamics"@)
        .insert("physics.gen-ph"@, "General Physics"@)
        .insert("physics.geo-ph"@, "Geophysics"@)
        .insert("physics.hist-ph"@, "History and Philosophy of Physics"@)
        .insert("physics.ins-det"@, "Instrumentation and Detectors"@)
        .insert("physics.med-ph"@, "Medical Physics"@)
        .insert("physics.optics"@, "Optics"@)
        .insert("physics.plasm-ph"@, "Plasma Physics"@)
        .insert("physics.pop-ph"@, "Popular Physics"@)
        .insert("physics.soc-ph"@, "Physics and Society"@)
        .insert("physics.space-ph"@, "Space Physics"@)
        .insert("quant-ph"@, "Quantum Physics"@)
}

fn add_physics(m: &mut StringHashMap<String>)
    ensures
        names_of(*final(m)) == with_physics(names_of(*old(m))),
{
    put(m, "astro-ph", "Astrophysics");
    put(m, "astro-ph.CO", "Cosmology and Nongalactic Astrophysics");
    put(m, "astro-ph.EP", "Earth and Planetary Astrophysics");
    put(m, "astro-ph.GA", "Astrophysics of Galaxies");
    put(m, "astro-ph.HE", "High Energy Astrophysical Phenomena");
    put(m, "astro-ph.IM", "Instrumentation and Methods for Astrophysics");
    put(m, "astro-ph.SR", "Solar and Stellar Astrophysics");
    put(m, "cond-mat.dis-nn", "Disordered Systems and Neural Networks");
    put(m, "cond-mat.mes-hall", "Mesoscale and Nanoscale Physics");
    put(m, "cond-mat.mtrl-sci", "Materials Science");
    put(m, "cond-mat.other", "Other Condensed Matter");
    put(m, "cond-mat.quant-gas", "Quantum Gases");
    put(m, "cond-mat.soft", "Soft Condensed Matter");
    put(m, "cond-mat.stat-mech", "Statistical Mechanics");
    put(m, "cond-mat.str-el", "Strongly Correlated Electrons");
    put(m, "cond-mat.supr-con", "Superconductivity");
    put(m, "gr-qc", "General Relativity and Quantum Cosmology");
    put(m, "hep-ex", "High Energy Physics - Experiment");
    put(m, "hep-lat", "High Energy Physics - Lattice");
    put(m, "hep-ph", "High Energy Physics - Phenomenology");
    put(m, "hep-th", "High Energy Physics - Theory");
    put(m, "math-ph", "Mathematical Physics");
    put(m, "nlin.AO", "Adaptation and Self-Organizing Systems");
    put(m, "nlin.CD", "Chaotic Dynamics");
    put(m, "nlin.CG", "Cellular Automata and Lattice Gases");
    put(m, "nlin.PS", "Pattern Formation and Solitons");
    put(m, "nlin.SI", "Exactly Solvable and Integrable Systems");
    put(m, "nucl-ex", "Nuclear Experiment");
    put(m, "nucl-th", "Nuclear Theory");
    put(m, "physics.acc-ph", "Accelerator Physics");
    put(m, "physics.ao-ph", "Atmospheric and Oceanic Physics");
    put(m, "physics.app-ph", "Applied Physics");
    put(m, "physics.atm-clus", "Atomic and Molecular Clusters");
    put(m, "physics.atom-ph", "Atomic Physics");
    put(m, "physics.bio-ph", "Biological Physics");
    put(m, "physics.chem-ph", "Chemical Physics");
    put(m, "physics.class-ph", "Classical Physics");
    put(m, "physics.comp-ph", "Computational Physics");
    put(m, "physics.data-an", "Data Analysis, Statistics and Probability");
    put(m, "physics.ed-ph", "Physics Education");
    put(m, "physics.flu-dyn", "Fluid Dynamics");
    put(m, "physics.gen-ph", "General Physics");
    put(m, "physics.geo-ph", "Geophysics");
    put(m, "physics.hist-ph", "History and Philosophy of Physics");
    put(m, "physics.ins-det", "Instrumentation and Detectors");
    put(m, "physics.med-ph", "Medical Physics");
    put(m, "physics.optics", "Optics");
    put(m, "physics.plasm-ph", "Plasma Physics");
    put(m, "physics.pop-ph", "Popular Physics");
    put(m, "physics.soc-ph", "Physics and Society");
    put(m, "physics.space-ph", "Space Physics");
    put(m, "quant-ph", "Quantum Physics");
}

/// Quantitative biology and finance, statistics, electrical engineering and economics.
pub open spec fn with_life_and_social_sciences(base: Names) -> Names {
    base
        .insert("q-bio.BM"@, "Biomolecules"@)
        .insert("q-bio.CB"@, "Cell Behavior"@)
        .insert("q-bio.GN"@, "Genomics"@)
        .insert("q-bio.MN"@, "Molecular Networks"@)
        .insert("q-bio.NC"@, "Neurons and Cognition"@)
        .insert("q-bio.OT"@, "Other Quantitative Biology"@)
        .insert("q-bio.PE"@, "Populations and Evolution"@)
        .insert("q-bio.QM"@, "Quantitative Methods"@)
        .insert("q-bio.SC"@, "Subcellular Processes"@)
        .insert("q-bio.TO"@, "Tissues and Organs"@)
        .insert("q-fin.CP"@, "Computational Finance"@)
        .insert("q-fin.EC"@, "Economics"@)
        .insert("q-fin.GN"@, "General Finance"@)
        .insert("q-fin.MF"@, "Mathematical Finance"@)
        .insert("q-fin.PM"@, "Portfolio Management"@)
        .insert("q-fin.PR"@, "Pricing of Securities"@)
        .insert("q-fin.RM"@, "Risk Management"@)
        .insert("q-fin.ST"@, "Statistical Finance"@)
        .insert("q-fin.TR"@, "Trading and Market Microstructure"@)
        .insert("stat.AP"@, "Applications"@)
        .insert("stat.CO"@, "Computation"@)
        .insert("stat.ME"@, "Methodology"@)
        .insert("stat.ML"@, "Machine Learning"@)
        .insert("stat.OT"@, "Other Statistics"@)
        .insert("stat.TH"@, "Statistics Theory"@)
        .insert("eess.AS"@, "Audio and Speech Processing"@)
        .insert("eess.IV"@, "Image and Video Processing"@)
        .insert("eess.SP"@, "Signal Processing"@)
        .insert("eess.SY"@, "Systems and Control"@)
        .insert("econ.EM"@, "Econometrics"@)
        .insert("econ.GN"@, "General Economics"@)
        .insert("econ.TH"@, "Theoretical Economics"@)
}

fn add_life_and_social_sciences(m: &mut StringHashMap<String>)
    ensures
        names_of(*final(m)) == with_life_and_social_sciences(names_of(*old(m))),
{
    put(m, "q-bio.BM", "Biomolecules");
    put(m, "q-bio.CB", "Cell Behavior");
    put(m, "q-bio.GN", "Genomics");
    put(m, "q-bio.MN", "Molecular Networks");
    put(m, "q-bio.NC", "Neurons and Cognition");
    put(m, "q-bio.OT", "Other Quantitative Biology");
    put(m, "q-bio.PE", "Populations and Evolution");
    put(m, "q-bio.QM", "Quantitative Methods");
    put(m, "q-bio.SC", "Subcellular Processes");
    put(m, "q-bio.TO", "Tissues and Organs");
    put(m, "q-fin.CP", "Computational Finance");
    put(m, "q-fin.EC", "Economics");
    put(m, "q-fin.GN", "General Finance");
    put(m, "q-fin.MF", "Mathematical Finance");
    put(m, "q-fin.PM", "Portfolio Management");
    put(m, "q-fin.PR", "Pricing of Securities");
    put(m, "q-fin.RM", "Risk Management");
    put(m, "q-fin.ST", "Statistical Finance");
    put(m, "q-fin.TR", "Trading and Market Microstructure");
    put(m, "stat.AP", "Applications");
    put(m, "stat.CO", "Computation");
    put(m, "stat.ME", "Methodology");
    put(m, "stat.ML", "Machine Learning");
    put(m, "stat.OT", "Other Statistics");
    put(m, "stat.TH", "Statistics Theory");
    put(m, "eess.AS", "Audio and Speech Processing");
    put(m, "eess.IV", "Image and Video Processing");
    put(m, "eess.SP", "Signal Processing");
    put(m, "eess.SY", "Systems and Control");
    put(m, "econ.EM", "Econometrics");
    put(m, "econ.GN", "General Economics");
    put(m, "econ.TH", "Theoretical Economics");
}

/// The display name of every known category code.
pub open spec fn category_names() -> Names {
    with_life_and_social_sciences(
        with_physics(with_mathematics(with_computer_science(Map::empty()))),
    )
}

/// Builds the map from category code to display name.
pub fn get_category_map() -> (m: StringHashMap<String>)
    ensures
        names_of(m) == category_names(),
{
    let mut m = StringHashMap::<String>::new();
    assert(names_of(m) =~= Names::empty());
    add_computer_science(&mut m);
    add_mathematics(&mut m);
    add_physics(&mut m);
    add_life_and_social_sciences(&mut m);
    m
}

/// What is shown for a category code: its display name if it has one, else
/// the part in front of its first `.` in upper case.
pub open spec fn format_category_spec(code: Seq<char>) -> Seq<char> {
    if category_names().contains_key(code) {
        category_names()[code]
    } else {
        uppercase(before(code, '.'))
    }
}

/// Formats a category code for display: the display name where the code is
/// known, otherwise the part before the first `.` in upper case.
pub fn format_category(category: &str) -> (r: String)
    ensures
        r@ == format_category_spec(category@),
{
    let category_map = get_category_map();
    match category_map.get(category) {
        Some(name) => name.clone(),
        None => {
            let prefix = take_before(category, '.');
            to_uppercase(prefix.as_str())
        },
    }
}

} // verus!
