//! The Java runner that performs Gemma OCR on a desktop: the libraries it needs, the
//! class path it runs with, and how its output is read.
use vstd::prelude::*;
use crate::requests::{tool_output, tool_result};
use crate::setup::{join_path, joined};

verus! {

/// The libraries of the runner, each as the address it is downloaded from and the file
/// name it is saved under, in class path order.
pub open spec fn runner_jar_list() -> Seq<(Seq<char>, Seq<char>)> {
    seq![
        ("https://dl.google.com/dl/android/maven2/com/google/ai/edge/litertlm/litertlm-jvm/0.10.2/litertlm-jvm-0.10.2.jar"@, "litertlm-jvm-0.10.2.jar"@),
        ("https://repo1.maven.org/maven2/com/google/code/gson/gson/2.13.2/gson-2.13.2.jar"@, "gson-2.13.2.jar"@),
        ("https://repo1.maven.org/maven2/org/jetbrains/kotlin/kotlin-reflect/2.2.21/kotlin-reflect-2.2.21.jar"@, "kotlin-reflect-2.2.21.jar"@),
        ("https://repo1.maven.org/maven2/org/jetbrains/kotlin/kotlin-stdlib/2.2.21/kotlin-stdlib-2.2.21.jar"@, "kotlin-stdlib-2.2.21.jar"@),
        ("https://repo1.maven.org/maven2/org/jetbrains/kotlin/kotlin-stdlib-jdk7/2.2.21/kotlin-stdlib-jdk7-2.2.21.jar"@, "kotlin-stdlib-jdk7-2.2.21.jar"@),
        ("https://repo1.maven.org/maven2/org/jetbrains/kotlin/kotlin-stdlib-jdk8/2.2.21/kotlin-stdlib-jdk8-2.2.21.jar"@, "kotlin-stdlib-jdk8-2.2.21.jar"@),
        ("https://repo1.maven.org/maven2/org/jetbrains/kotlinx/kotlinx-coroutines-core-jvm/1.9.0/kotlinx-coroutines-core-jvm-1.9.0.jar"@, "kotlinx-coroutines-core-jvm-1.9.0.jar"@),
        ("https://repo1.maven.org/maven2/org/jetbrains/annotations/23.0.0/annotations-23.0.0.jar"@, "annotations-23.0.0.jar"@),
    ]
}

/// The texts of a list of address and file name pairs.
pub open spec fn pair_texts(v: Seq<(&str, &str)>) -> Seq<(Seq<char>, Seq<char>)> {
    v.map_values(|p: (&str, &str)| (p.0@, p.1@))
}

/// The runner's libraries: where each is downloaded from and the file it is saved as.
pub fn runner_jars() -> (r: Vec<(&'static str, &'static str)>)
    ensures
        pair_texts(r@) == runner_jar_list(),
{
    let mut r: Vec<(&'static str, &'static str)> = Vec::new();
    r.push((
        "https://dl.google.com/dl/android/maven2/com/google/ai/edge/litertlm/litertlm-jvm/0.10.2/litertlm-jvm-0.10.2.jar",
        "litertlm-jvm-0.10.2.jar",
    ));
    r.push((
        "https://repo1.maven.org/maven2/com/google/code/gson/gson/2.13.2/gson-2.13.2.jar",
        "gson-2.13.2.jar",
    ));
    r.push((
        "https://repo1.maven.org/maven2/org/jetbrains/kotlin/kotlin-reflect/2.2.21/kotlin-reflect-2.2.21.jar",
        "kotlin-reflect-2.2.21.jar",
    ));
    r.push((
        "https://repo1.maven.org/maven2/org/jetbrains/kotlin/kotlin-stdlib/2.2.21/kotlin-stdlib-2.2.21.jar",
        "kotlin-stdlib-2.2.21.jar",
    ));
    r.push((
        "https://repo1.maven.org/maven2/org/jetbrains/kotlin/kotlin-stdlib-jdk7/2.2.21/kotlin-stdlib-jdk7-2.2.21.jar",
        "kotlin-stdlib-jdk7-2.2.21.jar",
    ));
    r.push((
        "https://repo1.maven.org/maven2/org/jetbrains/kotlin/kotlin-stdlib-jdk8/2.2.21/kotlin-stdlib-jdk8-2.2.21.jar",
        "kotlin-stdlib-jdk8-2.2.21.jar",
    ));
    r.push((
        "https://repo1.maven.org/maven2/org/jetbrains/kotlinx/kotlinx-coroutines-core-jvm/1.9.0/kotlinx-coroutines-core-jvm-1.9.0.jar",
        "kotlinx-coroutines-core-jvm-1.9.0.jar",
    ));
    r.push((
        "https://repo1.maven.org/maven2/org/jetbrains/annotations/23.0.0/annotations-23.0.0.jar",
        "annotations-23.0.0.jar",
    ));
    assert(pair_texts(r@) =~= runner_jar_list());
    r
}

/// Paths joined into one class path, separated by `:`.
pub open spec fn colon_joined(parts: Seq<Seq<char>>) -> Seq<char>
    decreases parts.len(),
{
    if parts.len() == 0 {
        Seq::empty()
    } else if parts.len() == 1 {
        parts[0]
    } else {
        colon_joined(parts.drop_last()) + seq![':'] + parts.last()
    }
}

/// Joins paths with `:` between them.
pub fn join_with_colons(parts: &Vec<String>) -> (r: String)
    ensures
        r@ == colon_joined(parts@.map_values(|p: String| p@)),
{
    let ghost texts = parts@.map_values(|p: String| p@);
    let mut r = String::new();
    let mut i: usize = 0;
    while i < parts.len()
        invariant
            i <= parts.len(),
            texts == parts@.map_values(|p: String| p@),
            r@ == colon_joined(texts.take(i as int)),
        decreases parts.len() - i,
    {
        proof {
            assert(texts.take(i + 1).drop_last() =~= texts.take(i as int));
        }
        if i > 0 {
            r.append(":");
            proof {
                reveal_strlit(":");
                assert(":"@ =~= seq![':']);
            }
        } else {
            assert(texts.take(1) =~= seq![texts[0]]);
        }
        r.append(parts[i].as_str());
        i = i + 1;
    }
    assert(texts.take(parts.len() as int) =~= texts);
    r
}

/// The class path the runner runs with: the runner's own archive, when given, then each
/// library in the library directory.
pub open spec fn runner_classpath_parts(lib_dir: Seq<char>, runner: Option<Seq<char>>) -> Seq<Seq<char>> {
    let libs = runner_jar_list().map_values(|p: (Seq<char>, Seq<char>)| joined(lib_dir, p.1));
    match runner {
        Some(j) => seq![j] + libs,
        None => libs,
    }
}

/// Builds the class path for the runner, as `:`-separated paths.
pub fn runner_classpath(lib_dir: &str, runner: Option<&str>) -> (r: String)
    ensures
        r@ == colon_joined(runner_classpath_parts(lib_dir@, match runner {
            Some(j) => Some(j@),
            None => None,
        })),
{
    let jars = runner_jars();
    let ghost start: Seq<Seq<char>> = match runner {
        Some(j) => seq![j@],
        None => Seq::empty(),
    };
    let mut parts: Vec<String> = Vec::new();
    match runner {
        Some(j) => {
            parts.push(j.to_owned());
        },
        None => {},
    }
    assert(parts@.map_values(|p: String| p@) =~= start);
    let mut i: usize = 0;
    while i < jars.len()
        invariant
            i <= jars.len(),
            pair_texts(jars@) == runner_jar_list(),
            parts@.map_values(|p: String| p@) == start + runner_jar_list().take(i as int).map_values(
                |p: (Seq<char>, Seq<char>)| joined(lib_dir@, p.1),
            ),
        decreases jars.len() - i,
    {
        let name = jars[i].1;
        assert(name@ == runner_jar_list()[i as int].1) by {
            assert(pair_texts(jars@)[i as int] == (jars@[i as int].0@, jars@[i as int].1@));
        }
        let ghost before = parts@;
        let path = join_path(lib_dir, name);
        parts.push(path);
        proof {
            let f = |p: (Seq<char>, Seq<char>)| joined(lib_dir@, p.1);
            let g = |p: String| p@;
            assert(runner_jar_list().take(i + 1) =~= runner_jar_list().take(i as int).push(
                runner_jar_list()[i as int],
            ));
            assert(runner_jar_list().take(i + 1).map_values(f) =~= runner_jar_list().take(
                i as int,
            ).map_values(f).push(path@));
            assert(parts@.map_values(g) =~= before.map_values(g).push(path@));
            assert(parts@.map_values(|p: String| p@) =~= start + runner_jar_list().take(
                i + 1,
            ).map_values(|p: (Seq<char>, Seq<char>)| joined(lib_dir@, p.1)));
        }
        i = i + 1;
    }
    assert(runner_jar_list().take(jars.len() as int) =~= runner_jar_list());
    assert(parts@.map_values(|p: String| p@) =~= runner_classpath_parts(lib_dir@, match runner {
        Some(j) => Some(j@),
        None => None,
    }));
    join_with_colons(&parts)
}

/// What a run of the runner gives: its trimmed output; an error when it failed, or when
/// it printed nothing.
pub open spec fn gemma_ocr_result(success: bool, stdout: Seq<u8>, stderr: Seq<u8>) -> Result<
    Seq<char>,
    Seq<char>,
> {
    match tool_result(success, stdout, stderr, "Gemma OCR завершився з помилкою"@) {
        Ok(t) => if t.len() == 0 {
            Err("Gemma OCR повернув порожній результат"@)
        } else {
            Ok(t)
        },
        Err(e) => Err(e),
    }
}

/// Reads the result of a run of the runner from its exit status and output.
pub fn gemma_ocr_output(success: bool, stdout: &[u8], stderr: &[u8]) -> (r: Result<String, String>)
    ensures
        match r {
            Ok(t) => gemma_ocr_result(success, stdout@, stderr@) == Ok::<Seq<char>, Seq<char>>(t@),
            Err(e) => gemma_ocr_result(success, stdout@, stderr@) == Err::<Seq<char>, Seq<char>>(
                e@,
            ),
        },
{
    let text = tool_output(success, stdout, stderr, "Gemma OCR завершився з помилкою")?;
    if text.as_str().unicode_len() == 0 {
        return Err("Gemma OCR повернув порожній результат".to_owned());
    }
    Ok(text)
}

} // verus!
