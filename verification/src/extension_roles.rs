//! The roles that file extensions give, proved extension by extension.
use vstd::prelude::*;
use crate::discover::{
    binary_exts, config_exts, data_exts, doc_exts, one_of, role_by_extension, schema_exts,
    source_exts, style_exts, FileRole,
};
use crate::text::has_substring;

verus! {

proof fn lemma_extension_css(e: Seq<char>, name: Seq<char>)
    requires
        e == "css"@,
    ensures
        role_by_extension(e, name) == FileRole::StyleSheet,
{
    reveal_strlit("css");
    assert(style_exts()[0]@ == e);
}

proof fn lemma_extension_scss(e: Seq<char>, name: Seq<char>)
    requires
        e == "scss"@,
    ensures
        role_by_extension(e, name) == FileRole::StyleSheet,
{
    reveal_strlit("scss");
    assert(style_exts()[1]@ == e);
}

proof fn lemma_extension_less(e: Seq<char>, name: Seq<char>)
    requires
        e == "less"@,
    ensures
        role_by_extension(e, name) == FileRole::StyleSheet,
{
    reveal_strlit("less");
    assert(style_exts()[2]@ == e);
}

proof fn lemma_extension_styl(e: Seq<char>, name: Seq<char>)
    requires
        e == "styl"@,
    ensures
        role_by_extension(e, name) == FileRole::StyleSheet,
{
    reveal_strlit("styl");
    assert(style_exts()[3]@ == e);
}

proof fn lemma_extension_json(e: Seq<char>, name: Seq<char>)
    requires
        e == "json"@,
    ensures
        role_by_extension(e, name) == FileRole::DataFile,
{
    reveal_strlit("json");
    assert(!one_of(e, style_exts())) by {
        assert forall|k: int| 0 <= k < style_exts().len() implies style_exts()[k]@ != e by {
            if k == 0 {
                reveal_strlit("css");
                assert("json"@.len() != "css"@.len());
            } else if k == 1 {
                reveal_strlit("scss");
                assert("json"@[0] != "scss"@[0]);
            } else if k == 2 {
                reveal_strlit("less");
                assert("json"@[0] != "less"@[0]);
            } else if k == 3 {
                reveal_strlit("styl");
                assert("json"@[0] != "styl"@[0]);
            }
        }
    }
    assert(data_exts()[0]@ == e);
}

proof fn lemma_extension_csv(e: Seq<char>, name: Seq<char>)
    requires
        e == "csv"@,
    ensures
        role_by_extension(e, name) == FileRole::DataFile,
{
    reveal_strlit("csv");
    assert(!one_of(e, style_exts())) by {
        assert forall|k: int| 0 <= k < style_exts().len() implies style_exts()[k]@ != e by {
            if k == 0 {
                reveal_strlit("css");
                assert("csv"@[2] != "css"@[2]);
            } else if k == 1 {
                reveal_strlit("scss");
                assert("csv"@.len() != "scss"@.len());
            } else if k == 2 {
                reveal_strlit("less");
                assert("csv"@.len() != "less"@.len());
            } else if k == 3 {
                reveal_strlit("styl");
                assert("csv"@.len() != "styl"@.len());
            }
        }
    }
    assert(data_exts()[1]@ == e);
}

proof fn lemma_extension_sql(e: Seq<char>, name: Seq<char>)
    requires
        e == "sql"@,
    ensures
        role_by_extension(e, name) == FileRole::DataFile,
{
    reveal_strlit("sql");
    assert(!one_of(e, style_exts())) by {
        assert forall|k: int| 0 <= k < style_exts().len() implies style_exts()[k]@ != e by {
            if k == 0 {
                reveal_strlit("css");
                assert("sql"@[0] != "css"@[0]);
            } else if k == 1 {
                reveal_strlit("scss");
                assert("sql"@.len() != "scss"@.len());
            } else if k == 2 {
                reveal_strlit("less");
                assert("sql"@.len() != "less"@.len());
            } else if k == 3 {
                reveal_strlit("styl");
                assert("sql"@.len() != "styl"@.len());
            }
        }
    }
    assert(data_exts()[2]@ == e);
}

proof fn lemma_extension_md(e: Seq<char>, name: Seq<char>)
    requires
        e == "md"@,
    ensures
        role_by_extension(e, name) == FileRole::Documentation,
{
    reveal_strlit("md");
    assert(!one_of(e, style_exts())) by {
        assert forall|k: int| 0 <= k < style_exts().len() implies style_exts()[k]@ != e by {
            if k == 0 {
                reveal_strlit("css");
                assert("md"@.len() != "css"@.len());
            } else if k == 1 {
                reveal_strlit("scss");
                assert("md"@.len() != "scss"@.len());
            } else if k == 2 {
                reveal_strlit("less");
                assert("md"@.len() != "less"@.len());
            } else if k == 3 {
                reveal_strlit("styl");
                assert("md"@.len() != "styl"@.len());
            }
        }
    }
    assert(!one_of(e, data_exts())) by {
        assert forall|k: int| 0 <= k < data_exts().len() implies data_exts()[k]@ != e by {
            if k == 0 {
                reveal_strlit("json");
                assert("md"@.len() != "json"@.len());
            } else if k == 1 {
                reveal_strlit("csv");
                assert("md"@.len() != "csv"@.len());
            } else if k == 2 {
                reveal_strlit("sql");
                assert("md"@.len() != "sql"@.len());
            }
        }
    }
    assert(doc_exts()[0]@ == e);
}

proof fn lemma_extension_mdx(e: Seq<char>, name: Seq<char>)
    requires
        e == "mdx"@,
    ensures
        role_by_extension(e, name) == FileRole::Documentation,
{
    reveal_strlit("mdx");
    assert(!one_of(e, style_exts())) by {
        assert forall|k: int| 0 <= k < style_exts().len() implies style_exts()[k]@ != e by {
            if k == 0 {
                reveal_strlit("css");
                assert("mdx"@[0] != "css"@[0]);
            } else if k == 1 {
                reveal_strlit("scss");
                assert("mdx"@.len() != "scss"@.len());
            } else if k == 2 {
                reveal_strlit("less");
                assert("mdx"@.len() != "less"@.len());
            } else if k == 3 {
                reveal_strlit("styl");
                assert("mdx"@.len() != "styl"@.len());
            }
        }
    }
    assert(!one_of(e, data_exts())) by {
        assert forall|k: int| 0 <= k < data_exts().len() implies data_exts()[k]@ != e by {
            if k == 0 {
                reveal_strlit("json");
                assert("mdx"@.len() != "json"@.len());
            } else if k == 1 {
                reveal_strlit("csv");
                assert("mdx"@[0] != "csv"@[0]);
            } else if k == 2 {
                reveal_strlit("sql");
                assert("mdx"@[0] != "sql"@[0]);
            }
        }
    }
    assert(doc_exts()[1]@ == e);
}

proof fn lemma_extension_rst(e: Seq<char>, name: Seq<char>)
    requires
        e == "rst"@,
    ensures
        role_by_extension(e, name) == FileRole::Documentation,
{
    reveal_strlit("rst");
    assert(!one_of(e, style_exts())) by {
        assert forall|k: int| 0 <= k < style_exts().len() implies style_exts()[k]@ != e by {
            if k == 0 {
                reveal_strlit("css");
                assert("rst"@[0] != "css"@[0]);
            } else if k == 1 {
                reveal_strlit("scss");
                assert("rst"@.len() != "scss"@.len());
            } else if k == 2 {
                reveal_strlit("less");
                assert("rst"@.len() != "less"@.len());
            } else if k == 3 {
                reveal_strlit("styl");
                assert("rst"@.len() != "styl"@.len());
            }
        }
    }
    assert(!one_of(e, data_exts())) by {
        assert forall|k: int| 0 <= k < data_exts().len() implies data_exts()[k]@ != e by {
            if k == 0 {
                reveal_strlit("json");
                assert("rst"@.len() != "json"@.len());
            } else if k == 1 {
                reveal_strlit("csv");
                assert("rst"@[0] != "csv"@[0]);
            } else if k == 2 {
                reveal_strlit("sql");
                assert("rst"@[0] != "sql"@[0]);
            }
        }
    }
    assert(doc_exts()[2]@ == e);
}

proof fn lemma_extension_txt(e: Seq<char>, name: Seq<char>)
    requires
        e == "txt"@,
    ensures
        role_by_extension(e, name) == FileRole::Documentation,
{
    reveal_strlit("txt");
    assert(!one_of(e, style_exts())) by {
        assert forall|k: int| 0 <= k < style_exts().len() implies style_exts()[k]@ != e by {
            if k == 0 {
                reveal_strlit("css");
                assert("txt"@[0] != "css"@[0]);
            } else if k == 1 {
                reveal_strlit("scss");
                assert("txt"@.len() != "scss"@.len());
            } else if k == 2 {
                reveal_strlit("less");
                assert("txt"@.len() != "less"@.len());
            } else if k == 3 {
                reveal_strlit("styl");
                assert("txt"@.len() != "styl"@.len());
            }
        }
    }
    assert(!one_of(e, data_exts())) by {
        assert forall|k: int| 0 <= k < data_exts().len() implies data_exts()[k]@ != e by {
            if k == 0 {
                reveal_strlit("json");
                assert("txt"@.len() != "json"@.len());
            } else if k == 1 {
                reveal_strlit("csv");
                assert("txt"@[0] != "csv"@[0]);
            } else if k == 2 {
                reveal_strlit("sql");
                assert("txt"@[0] != "sql"@[0]);
            }
        }
    }
    assert(doc_exts()[3]@ == e);
}

proof fn lemma_extension_html(e: Seq<char>, name: Seq<char>)
    requires
        e == "html"@,
    ensures
        role_by_extension(e, name) == FileRole::Documentation,
{
    reveal_strlit("html");
    assert(!one_of(e, style_exts())) by {
        assert forall|k: int| 0 <= k < style_exts().len() implies style_exts()[k]@ != e by {
            if k == 0 {
                reveal_strlit("css");
                assert("html"@.len() != "css"@.len());
            } else if k == 1 {
                reveal_strlit("scss");
                assert("html"@[0] != "scss"@[0]);
            } else if k == 2 {
                reveal_strlit("less");
                assert("html"@[0] != "less"@[0]);
            } else if k == 3 {
                reveal_strlit("styl");
                assert("html"@[0] != "styl"@[0]);
            }
        }
    }
    assert(!one_of(e, data_exts())) by {
        assert forall|k: int| 0 <= k < data_exts().len() implies data_exts()[k]@ != e by {
            if k == 0 {
                reveal_strlit("json");
                assert("html"@[0] != "json"@[0]);
            } else if k == 1 {
                reveal_strlit("csv");
                assert("html"@.len() != "csv"@.len());
            } else if k == 2 {
                reveal_strlit("sql");
                assert("html"@.len() != "sql"@.len());
            }
        }
    }
    assert(doc_exts()[4]@ == e);
}

proof fn lemma_extension_htm(e: Seq<char>, name: Seq<char>)
    requires
        e == "htm"@,
    ensures
        role_by_extension(e, name) == FileRole::Documentation,
{
    reveal_strlit("htm");
    assert(!one_of(e, style_exts())) by {
        assert forall|k: int| 0 <= k < style_exts().len() implies style_exts()[k]@ != e by {
            if k == 0 {
                reveal_strlit("css");
                assert("htm"@[0] != "css"@[0]);
            } else if k == 1 {
                reveal_strlit("scss");
                assert("htm"@.len() != "scss"@.len());
            } else if k == 2 {
                reveal_strlit("less");
                assert("htm"@.len() != "less"@.len());
            } else if k == 3 {
                reveal_strlit("styl");
                assert("htm"@.len() != "styl"@.len());
            }
        }
    }
    assert(!one_of(e, data_exts())) by {
        assert forall|k: int| 0 <= k < data_exts().len() implies data_exts()[k]@ != e by {
            if k == 0 {
                reveal_strlit("json");
                assert("htm"@.len() != "json"@.len());
            } else if k == 1 {
                reveal_strlit("csv");
                assert("htm"@[0] != "csv"@[0]);
            } else if k == 2 {
                reveal_strlit("sql");
                assert("htm"@[0] != "sql"@[0]);
            }
        }
    }
    assert(doc_exts()[5]@ == e);
}

proof fn lemma_extension_toml(e: Seq<char>, name: Seq<char>)
    requires
        e == "toml"@,
    ensures
        role_by_extension(e, name) == FileRole::Config,
{
    reveal_strlit("toml");
    assert(!one_of(e, style_exts())) by {
        assert forall|k: int| 0 <= k < style_exts().len() implies style_exts()[k]@ != e by {
            if k == 0 {
                reveal_strlit("css");
                assert("toml"@.len() != "css"@.len());
            } else if k == 1 {
                reveal_strlit("scss");
                assert("toml"@[0] != "scss"@[0]);
            } else if k == 2 {
                reveal_strlit("less");
                assert("toml"@[0] != "less"@[0]);
            } else if k == 3 {
                reveal_strlit("styl");
                assert("toml"@[0] != "styl"@[0]);
            }
        }
    }
    assert(!one_of(e, data_exts())) by {
        assert forall|k: int| 0 <= k < data_exts().len() implies data_exts()[k]@ != e by {
            if k == 0 {
                reveal_strlit("json");
                assert("toml"@[0] != "json"@[0]);
            } else if k == 1 {
                reveal_strlit("csv");
                assert("toml"@.len() != "csv"@.len());
            } else if k == 2 {
                reveal_strlit("sql");
                assert("toml"@.len() != "sql"@.len());
            }
        }
    }
    assert(!one_of(e, doc_exts())) by {
        assert forall|k: int| 0 <= k < doc_exts().len() implies doc_exts()[k]@ != e by {
            if k == 0 {
                reveal_strlit("md");
                assert("toml"@.len() != "md"@.len());
            } else if k == 1 {
                reveal_strlit("mdx");
                assert("toml"@.len() != "mdx"@.len());
            } else if k == 2 {
                reveal_strlit("rst");
                assert("toml"@.len() != "rst"@.len());
            } else if k == 3 {
                reveal_strlit("txt");
                assert("toml"@.len() != "txt"@.len());
            } else if k == 4 {
                reveal_strlit("html");
                assert("toml"@[0] != "html"@[0]);
            } else if k == 5 {
                reveal_strlit("htm");
                assert("toml"@.len() != "htm"@.len());
            }
        }
    }
    assert(config_exts()[0]@ == e);
}

proof fn lemma_extension_yaml(e: Seq<char>, name: Seq<char>)
    requires
        e == "yaml"@,
    ensures
        role_by_extension(e, name) == FileRole::Config,
{
    reveal_strlit("yaml");
    assert(!one_of(e, style_exts())) by {
        assert forall|k: int| 0 <= k < style_exts().len() implies style_exts()[k]@ != e by {
            if k == 0 {
                reveal_strlit("css");
                assert("yaml"@.len() != "css"@.len());
            } else if k == 1 {
                reveal_strlit("scss");
                assert("yaml"@[0] != "scss"@[0]);
            } else if k == 2 {
                reveal_strlit("less");
                assert("yaml"@[0] != "less"@[0]);
            } else if k == 3 {
                reveal_strlit("styl");
                assert("yaml"@[0] != "styl"@[0]);
            }
        }
    }
    assert(!one_of(e, data_exts())) by {
        assert forall|k: int| 0 <= k < data_exts().len() implies data_exts()[k]@ != e by {
            if k == 0 {
                reveal_strlit("json");
                assert("yaml"@[0] != "json"@[0]);
            } else if k == 1 {
                reveal_strlit("csv");
                assert("yaml"@.len() != "csv"@.len());
            } else if k == 2 {
                reveal_strlit("sql");
                assert("yaml"@.len() != "sql"@.len());
            }
        }
    }
    assert(!one_of(e, doc_exts())) by {
        assert forall|k: int| 0 <= k < doc_exts().len() implies doc_exts()[k]@ != e by {
            if k == 0 {
                reveal_strlit("md");
                assert("yaml"@.len() != "md"@.len());
            } else if k == 1 {
                reveal_strlit("mdx");
                assert("yaml"@.len() != "mdx"@.len());
            } else if k == 2 {
                reveal_strlit("rst");
                assert("yaml"@.len() != "rst"@.len());
            } else if k == 3 {
                reveal_strlit("txt");
                assert("yaml"@.len() != "txt"@.len());
            } else if k == 4 {
                reveal_strlit("html");
                assert("yaml"@[0] != "html"@[0]);
            } else if k == 5 {
                reveal_strlit("htm");
                assert("yaml"@.len() != "htm"@.len());
            }
        }
    }
    assert(config_exts()[1]@ == e);
}

proof fn lemma_extension_yml(e: Seq<char>, name: Seq<char>)
    requires
        e == "yml"@,
    ensures
        role_by_extension(e, name) == FileRole::Config,
{
    reveal_strlit("yml");
    assert(!one_of(e, style_exts())) by {
        assert forall|k: int| 0 <= k < style_exts().len() implies style_exts()[k]@ != e by {
            if k == 0 {
                reveal_strlit("css");
                assert("yml"@[0] != "css"@[0]);
            } else if k == 1 {
                reveal_strlit("scss");
                assert("yml"@.len() != "scss"@.len());
            } else if k == 2 {
                reveal_strlit("less");
                assert("yml"@.len() != "less"@.len());
            } else if k == 3 {
                reveal_strlit("styl");
                assert("yml"@.len() != "styl"@.len());
            }
        }
    }
    assert(!one_of(e, data_exts())) by {
        assert forall|k: int| 0 <= k < data_exts().len() implies data_exts()[k]@ != e by {
            if k == 0 {
                reveal_strlit("json");
                assert("yml"@.len() != "json"@.len());
            } else if k == 1 {
                reveal_strlit("csv");
                assert("yml"@[0] != "csv"@[0]);
            } else if k == 2 {
                reveal_strlit("sql");
                assert("yml"@[0] != "sql"@[0]);
            }
        }
    }
    assert(!one_of(e, doc_exts())) by {
        assert forall|k: int| 0 <= k < doc_exts().len() implies doc_exts()[k]@ != e by {
            if k == 0 {
                reveal_strlit("md");
                assert("yml"@.len() != "md"@.len());
            } else if k == 1 {
                reveal_strlit("mdx");
                assert("yml"@[0] != "mdx"@[0]);
            } else if k == 2 {
                reveal_strlit("rst");
                assert("yml"@[0] != "rst"@[0]);
            } else if k == 3 {
                reveal_strlit("txt");
                assert("yml"@[0] != "txt"@[0]);
            } else if k == 4 {
                reveal_strlit("html");
                assert("yml"@.len() != "html"@.len());
            } else if k == 5 {
                reveal_strlit("htm");
                assert("yml"@[0] != "htm"@[0]);
            }
        }
    }
    assert(config_exts()[2]@ == e);
}

proof fn lemma_extension_env(e: Seq<char>, name: Seq<char>)
    requires
        e == "env"@,
    ensures
        role_by_extension(e, name) == FileRole::Config,
{
    reveal_strlit("env");
    assert(!one_of(e, style_exts())) by {
        assert forall|k: int| 0 <= k < style_exts().len() implies style_exts()[k]@ != e by {
            if k == 0 {
                reveal_strlit("css");
                assert("env"@[0] != "css"@[0]);
            } else if k == 1 {
                reveal_strlit("scss");
                assert("env"@.len() != "scss"@.len());
            } else if k == 2 {
                reveal_strlit("less");
                assert("env"@.len() != "less"@.len());
            } else if k == 3 {
                reveal_strlit("styl");
                assert("env"@.len() != "styl"@.len());
            }
        }
    }
    assert(!one_of(e, data_exts())) by {
        assert forall|k: int| 0 <= k < data_exts().len() implies data_exts()[k]@ != e by {
            if k == 0 {
                reveal_strlit("json");
                assert("env"@.len() != "json"@.len());
            } else if k == 1 {
                reveal_strlit("csv");
                assert("env"@[0] != "csv"@[0]);
            } else if k == 2 {
                reveal_strlit("sql");
                assert("env"@[0] != "sql"@[0]);
            }
        }
    }
    assert(!one_of(e, doc_exts())) by {
        assert forall|k: int| 0 <= k < doc_exts().len() implies doc_exts()[k]@ != e by {
            if k == 0 {
                reveal_strlit("md");
                assert("env"@.len() != "md"@.len());
            } else if k == 1 {
                reveal_strlit("mdx");
                assert("env"@[0] != "mdx"@[0]);
            } else if k == 2 {
                reveal_strlit("rst");
                assert("env"@[0] != "rst"@[0]);
            } else if k == 3 {
                reveal_strlit("txt");
                assert("env"@[0] != "txt"@[0]);
            } else if k == 4 {
                reveal_strlit("html");
                assert("env"@.len() != "html"@.len());
            } else if k == 5 {
                reveal_strlit("htm");
                assert("env"@[0] != "htm"@[0]);
            }
        }
    }
    assert(config_exts()[3]@ == e);
}

proof fn lemma_extension_conf(e: Seq<char>, name: Seq<char>)
    requires
        e == "conf"@,
    ensures
        role_by_extension(e, name) == FileRole::Config,
{
    reveal_strlit("conf");
    assert(!one_of(e, style_exts())) by {
        assert forall|k: int| 0 <= k < style_exts().len() implies style_exts()[k]@ != e by {
            if k == 0 {
                reveal_strlit("css");
                assert("conf"@.len() != "css"@.len());
            } else if k == 1 {
                reveal_strlit("scss");
                assert("conf"@[0] != "scss"@[0]);
            } else if k == 2 {
                reveal_strlit("less");
                assert("conf"@[0] != "less"@[0]);
            } else if k == 3 {
                reveal_strlit("styl");
                assert("conf"@[0] != "styl"@[0]);
            }
        }
    }
    assert(!one_of(e, data_exts())) by {
        assert forall|k: int| 0 <= k < data_exts().len() implies data_exts()[k]@ != e by {
            if k == 0 {
                reveal_strlit("json");
                assert("conf"@[0] != "json"@[0]);
            } else if k == 1 {
                reveal_strlit("csv");
                assert("conf"@.len() != "csv"@.len());
            } else if k == 2 {
                reveal_strlit("sql");
                assert("conf"@.len() != "sql"@.len());
            }
        }
    }
    assert(!one_of(e, doc_exts())) by {
        assert forall|k: int| 0 <= k < doc_exts().len() implies doc_exts()[k]@ != e by {
            if k == 0 {
                reveal_strlit("md");
                assert("conf"@.len() != "md"@.len());
            } else if k == 1 {
                reveal_strlit("mdx");
                assert("conf"@.len() != "mdx"@.len());
            } else if k == 2 {
                reveal_strlit("rst");
                assert("conf"@.len() != "rst"@.len());
            } else if k == 3 {
                reveal_strlit("txt");
                assert("conf"@.len() != "txt"@.len());
            } else if k == 4 {
                reveal_strlit("html");
                assert("conf"@[0] != "html"@[0]);
            } else if k == 5 {
                reveal_strlit("htm");
                assert("conf"@.len() != "htm"@.len());
            }
        }
    }
    assert(config_exts()[4]@ == e);
}

proof fn lemma_extension_properties(e: Seq<char>, name: Seq<char>)
    requires
        e == "properties"@,
    ensures
        role_by_extension(e, name) == FileRole::Config,
{
    reveal_strlit("properties");
    assert(!one_of(e, style_exts())) by {
        assert forall|k: int| 0 <= k < style_exts().len() implies style_exts()[k]@ != e by {
            if k == 0 {
                reveal_strlit("css");
                assert("properties"@.len() != "css"@.len());
            } else if k == 1 {
                reveal_strlit("scss");
                assert("properties"@.len() != "scss"@.len());
            } else if k == 2 {
                reveal_strlit("less");
                assert("properties"@.len() != "less"@.len());
            } else if k == 3 {
                reveal_strlit("styl");
                assert("properties"@.len() != "styl"@.len());
            }
        }
    }
    assert(!one_of(e, data_exts())) by {
        assert forall|k: int| 0 <= k < data_exts().len() implies data_exts()[k]@ != e by {
            if k == 0 {
                reveal_strlit("json");
                assert("properties"@.len() != "json"@.len());
            } else if k == 1 {
                reveal_strlit("csv");
                assert("properties"@.len() != "csv"@.len());
            } else if k == 2 {
                reveal_strlit("sql");
                assert("properties"@.len() != "sql"@.len());
            }
        }
    }
    assert(!one_of(e, doc_exts())) by {
        assert forall|k: int| 0 <= k < doc_exts().len() implies doc_exts()[k]@ != e by {
            if k == 0 {
                reveal_strlit("md");
                assert("properties"@.len() != "md"@.len());
            } else if k == 1 {
                reveal_strlit("mdx");
                assert("properties"@.len() != "mdx"@.len());
            } else if k == 2 {
                reveal_strlit("rst");
                assert("properties"@.len() != "rst"@.len());
            } else if k == 3 {
                reveal_strlit("txt");
                assert("properties"@.len() != "txt"@.len());
            } else if k == 4 {
                reveal_strlit("html");
                assert("properties"@.len() != "html"@.len());
            } else if k == 5 {
                reveal_strlit("htm");
                assert("properties"@.len() != "htm"@.len());
            }
        }
    }
    assert(config_exts()[5]@ == e);
}

proof fn lemma_extension_ini(e: Seq<char>, name: Seq<char>)
    requires
        e == "ini"@,
    ensures
        role_by_extension(e, name) == FileRole::Config,
{
    reveal_strlit("ini");
    assert(!one_of(e, style_exts())) by {
        assert forall|k: int| 0 <= k < style_exts().len() implies style_exts()[k]@ != e by {
            if k == 0 {
                reveal_strlit("css");
                assert("ini"@[0] != "css"@[0]);
            } else if k == 1 {
                reveal_strlit("scss");
                assert("ini"@.len() != "scss"@.len());
            } else if k == 2 {
                reveal_strlit("less");
                assert("ini"@.len() != "less"@.len());
            } else if k == 3 {
                reveal_strlit("styl");
                assert("ini"@.len() != "styl"@.len());
            }
        }
    }
    assert(!one_of(e, data_exts())) by {
        assert forall|k: int| 0 <= k < data_exts().len() implies data_exts()[k]@ != e by {
            if k == 0 {
                reveal_strlit("json");
                assert("ini"@.len() != "json"@.len());
            } else if k == 1 {
                reveal_strlit("csv");
                assert("ini"@[0] != "csv"@[0]);
            } else if k == 2 {
                reveal_strlit("sql");
                assert("ini"@[0] != "sql"@[0]);
            }
        }
    }
    assert(!one_of(e, doc_exts())) by {
        assert forall|k: int| 0 <= k < doc_exts().len() implies doc_exts()[k]@ != e by {
            if k == 0 {
                reveal_strlit("md");
                assert("ini"@.len() != "md"@.len());
            } else if k == 1 {
                reveal_strlit("mdx");
                assert("ini"@[0] != "mdx"@[0]);
            } else if k == 2 {
                reveal_strlit("rst");
                assert("ini"@[0] != "rst"@[0]);
            } else if k == 3 {
                reveal_strlit("txt");
                assert("ini"@[0] != "txt"@[0]);
            } else if k == 4 {
                reveal_strlit("html");
                assert("ini"@.len() != "html"@.len());
            } else if k == 5 {
                reveal_strlit("htm");
                assert("ini"@[0] != "htm"@[0]);
            }
        }
    }
    assert(config_exts()[6]@ == e);
}

proof fn lemma_extension_d_ts(e: Seq<char>, name: Seq<char>)
    requires
        e == "d.ts"@,
    ensures
        role_by_extension(e, name) == FileRole::Schema,
{
    reveal_strlit("d.ts");
    assert(!one_of(e, style_exts())) by {
        assert forall|k: int| 0 <= k < style_exts().len() implies style_exts()[k]@ != e by {
            if k == 0 {
                reveal_strlit("css");
                assert("d.ts"@.len() != "css"@.len());
            } else if k == 1 {
                reveal_strlit("scss");
                assert("d.ts"@[0] != "scss"@[0]);
            } else if k == 2 {
                reveal_strlit("less");
                assert("d.ts"@[0] != "less"@[0]);
            } else if k == 3 {
                reveal_strlit("styl");
                assert("d.ts"@[0] != "styl"@[0]);
            }
        }
    }
    assert(!one_of(e, data_exts())) by {
        assert forall|k: int| 0 <= k < data_exts().len() implies data_exts()[k]@ != e by {
            if k == 0 {
                reveal_strlit("json");
                assert("d.ts"@[0] != "json"@[0]);
            } else if k == 1 {
                reveal_strlit("csv");
                assert("d.ts"@.len() != "csv"@.len());
            } else if k == 2 {
                reveal_strlit("sql");
                assert("d.ts"@.len() != "sql"@.len());
            }
        }
    }
    assert(!one_of(e, doc_exts())) by {
        assert forall|k: int| 0 <= k < doc_exts().len() implies doc_exts()[k]@ != e by {
            if k == 0 {
                reveal_strlit("md");
                assert("d.ts"@.len() != "md"@.len());
            } else if k == 1 {
                reveal_strlit("mdx");
                assert("d.ts"@.len() != "mdx"@.len());
            } else if k == 2 {
                reveal_strlit("rst");
                assert("d.ts"@.len() != "rst"@.len());
            } else if k == 3 {
                reveal_strlit("txt");
                assert("d.ts"@.len() != "txt"@.len());
            } else if k == 4 {
                reveal_strlit("html");
                assert("d.ts"@[0] != "html"@[0]);
            } else if k == 5 {
                reveal_strlit("htm");
                assert("d.ts"@.len() != "htm"@.len());
            }
        }
    }
    assert(!one_of(e, config_exts())) by {
        assert forall|k: int| 0 <= k < config_exts().len() implies config_exts()[k]@ != e by {
            if k == 0 {
                reveal_strlit("toml");
                assert("d.ts"@[0] != "toml"@[0]);
            } else if k == 1 {
                reveal_strlit("yaml");
                assert("d.ts"@[0] != "yaml"@[0]);
            } else if k == 2 {
                reveal_strlit("yml");
                assert("d.ts"@.len() != "yml"@.len());
            } else if k == 3 {
                reveal_strlit("env");
                assert("d.ts"@.len() != "env"@.len());
            } else if k == 4 {
                reveal_strlit("conf");
                assert("d.ts"@[0] != "conf"@[0]);
            } else if k == 5 {
                reveal_strlit("properties");
                assert("d.ts"@.len() != "properties"@.len());
            } else if k == 6 {
                reveal_strlit("ini");
                assert("d.ts"@.len() != "ini"@.len());
            }
        }
    }
    assert(schema_exts()[0]@ == e);
}

proof fn lemma_extension_graphql(e: Seq<char>, name: Seq<char>)
    requires
        e == "graphql"@,
    ensures
        role_by_extension(e, name) == FileRole::Schema,
{
    reveal_strlit("graphql");
    assert(!one_of(e, style_exts())) by {
        assert forall|k: int| 0 <= k < style_exts().len() implies style_exts()[k]@ != e by {
            if k == 0 {
                reveal_strlit("css");
                assert("graphql"@.len() != "css"@.len());
            } else if k == 1 {
                reveal_strlit("scss");
                assert("graphql"@.len() != "scss"@.len());
            } else if k == 2 {
                reveal_strlit("less");
                assert("graphql"@.len() != "less"@.len());
            } else if k == 3 {
                reveal_strlit("styl");
                assert("graphql"@.len() != "styl"@.len());
            }
        }
    }
    assert(!one_of(e, data_exts())) by {
        assert forall|k: int| 0 <= k < data_exts().len() implies data_exts()[k]@ != e by {
            if k == 0 {
                reveal_strlit("json");
                assert("graphql"@.len() != "json"@.len());
            } else if k == 1 {
                reveal_strlit("csv");
                assert("graphql"@.len() != "csv"@.len());
            } else if k == 2 {
                reveal_strlit("sql");
                assert("graphql"@.len() != "sql"@.len());
            }
        }
    }
    assert(!one_of(e, doc_exts())) by {
        assert forall|k: int| 0 <= k < doc_exts().len() implies doc_exts()[k]@ != e by {
            if k == 0 {
                reveal_strlit("md");
                assert("graphql"@.len() != "md"@.len());
            } else if k == 1 {
                reveal_strlit("mdx");
                assert("graphql"@.len() != "mdx"@.len());
            } else if k == 2 {
                reveal_strlit("rst");
                assert("graphql"@.len() != "rst"@.len());
            } else if k == 3 {
                reveal_strlit("txt");
                assert("graphql"@.len() != "txt"@.len());
            } else if k == 4 {
                reveal_strlit("html");
                assert("graphql"@.len() != "html"@.len());
            } else if k == 5 {
                reveal_strlit("htm");
                assert("graphql"@.len() != "htm"@.len());
            }
        }
    }
    assert(!one_of(e, config_exts())) by {
        assert forall|k: int| 0 <= k < config_exts().len() implies config_exts()[k]@ != e by {
            if k == 0 {
                reveal_strlit("toml");
                assert("graphql"@.len() != "toml"@.len());
            } else if k == 1 {
                reveal_strlit("yaml");
                assert("graphql"@.len() != "yaml"@.len());
            } else if k == 2 {
                reveal_strlit("yml");
                assert("graphql"@.len() != "yml"@.len());
            } else if k == 3 {
                reveal_strlit("env");
                assert("graphql"@.len() != "env"@.len());
            } else if k == 4 {
                reveal_strlit("conf");
                assert("graphql"@.len() != "conf"@.len());
            } else if k == 5 {
                reveal_strlit("properties");
                assert("graphql"@.len() != "properties"@.len());
            } else if k == 6 {
                reveal_strlit("ini");
                assert("graphql"@.len() != "ini"@.len());
            }
        }
    }
    assert(schema_exts()[1]@ == e);
}

proof fn lemma_extension_proto(e: Seq<char>, name: Seq<char>)
    requires
        e == "proto"@,
    ensures
        role_by_extension(e, name) == FileRole::Schema,
{
    reveal_strlit("proto");
    assert(!one_of(e, style_exts())) by {
        assert forall|k: int| 0 <= k < style_exts().len() implies style_exts()[k]@ != e by {
            if k == 0 {
                reveal_strlit("css");
                assert("proto"@.len() != "css"@.len());
            } else if k == 1 {
                reveal_strlit("scss");
                assert("proto"@.len() != "scss"@.len());
            } else if k == 2 {
                reveal_strlit("less");
                assert("proto"@.len() != "less"@.len());
            } else if k == 3 {
                reveal_strlit("styl");
                assert("proto"@.len() != "styl"@.len());
            }
        }
    }
    assert(!one_of(e, data_exts())) by {
        assert forall|k: int| 0 <= k < data_exts().len() implies data_exts()[k]@ != e by {
            if k == 0 {
                reveal_strlit("json");
                assert("proto"@.len() != "json"@.len());
            } else if k == 1 {
                reveal_strlit("csv");
                assert("proto"@.len() != "csv"@.len());
            } else if k == 2 {
                reveal_strlit("sql");
                assert("proto"@.len() != "sql"@.len());
            }
        }
    }
    assert(!one_of(e, doc_exts())) by {
        assert forall|k: int| 0 <= k < doc_exts().len() implies doc_exts()[k]@ != e by {
            if k == 0 {
                reveal_strlit("md");
                assert("proto"@.len() != "md"@.len());
            } else if k == 1 {
                reveal_strlit("mdx");
                assert("proto"@.len() != "mdx"@.len());
            } else if k == 2 {
                reveal_strlit("rst");
                assert("proto"@.len() != "rst"@.len());
            } else if k == 3 {
                reveal_strlit("txt");
                assert("proto"@.len() != "txt"@.len());
            } else if k == 4 {
                reveal_strlit("html");
                assert("proto"@.len() != "html"@.len());
            } else if k == 5 {
                reveal_strlit("htm");
                assert("proto"@.len() != "htm"@.len());
            }
        }
    }
    assert(!one_of(e, config_exts())) by {
        assert forall|k: int| 0 <= k < config_exts().len() implies config_exts()[k]@ != e by {
            if k == 0 {
                reveal_strlit("toml");
                assert("proto"@.len() != "toml"@.len());
            } else if k == 1 {
                reveal_strlit("yaml");
                assert("proto"@.len() != "yaml"@.len());
            } else if k == 2 {
                reveal_strlit("yml");
                assert("proto"@.len() != "yml"@.len());
            } else if k == 3 {
                reveal_strlit("env");
                assert("proto"@.len() != "env"@.len());
            } else if k == 4 {
                reveal_strlit("conf");
                assert("proto"@.len() != "conf"@.len());
            } else if k == 5 {
                reveal_strlit("properties");
                assert("proto"@.len() != "properties"@.len());
            } else if k == 6 {
                reveal_strlit("ini");
                assert("proto"@.len() != "ini"@.len());
            }
        }
    }
    assert(schema_exts()[2]@ == e);
}

proof fn lemma_extension_prisma(e: Seq<char>, name: Seq<char>)
    requires
        e == "prisma"@,
    ensures
        role_by_extension(e, name) == FileRole::Schema,
{
    reveal_strlit("prisma");
    assert(!one_of(e, style_exts())) by {
        assert forall|k: int| 0 <= k < style_exts().len() implies style_exts()[k]@ != e by {
            if k == 0 {
                reveal_strlit("css");
                assert("prisma"@.len() != "css"@.len());
            } else if k == 1 {
                reveal_strlit("scss");
                assert("prisma"@.len() != "scss"@.len());
            } else if k == 2 {
                reveal_strlit("less");
                assert("prisma"@.len() != "less"@.len());
            } else if k == 3 {
                reveal_strlit("styl");
                assert("prisma"@.len() != "styl"@.len());
            }
        }
    }
    assert(!one_of(e, data_exts())) by {
        assert forall|k: int| 0 <= k < data_exts().len() implies data_exts()[k]@ != e by {
            if k == 0 {
                reveal_strlit("json");
                assert("prisma"@.len() != "json"@.len());
            } else if k == 1 {
                reveal_strlit("csv");
                assert("prisma"@.len() != "csv"@.len());
            } else if k == 2 {
                reveal_strlit("sql");
                assert("prisma"@.len() != "sql"@.len());
            }
        }
    }
    assert(!one_of(e, doc_exts())) by {
        assert forall|k: int| 0 <= k < doc_exts().len() implies doc_exts()[k]@ != e by {
            if k == 0 {
                reveal_strlit("md");
                assert("prisma"@.len() != "md"@.len());
            } else if k == 1 {
                reveal_strlit("mdx");
                assert("prisma"@.len() != "mdx"@.len());
            } else if k == 2 {
                reveal_strlit("rst");
                assert("prisma"@.len() != "rst"@.len());
            } else if k == 3 {
                reveal_strlit("txt");
                assert("prisma"@.len() != "txt"@.len());
            } else if k == 4 {
                reveal_strlit("html");
                assert("prisma"@.len() != "html"@.len());
            } else if k == 5 {
                reveal_strlit("htm");
                assert("prisma"@.len() != "htm"@.len());
            }
        }
    }
    assert(!one_of(e, config_exts())) by {
        assert forall|k: int| 0 <= k < config_exts().len() implies config_exts()[k]@ != e by {
            if k == 0 {
                reveal_strlit("toml");
                assert("prisma"@.len() != "toml"@.len());
            } else if k == 1 {
                reveal_strlit("yaml");
                assert("prisma"@.len() != "yaml"@.len());
            } else if k == 2 {
                reveal_strlit("yml");
                assert("prisma"@.len() != "yml"@.len());
            } else if k == 3 {
                reveal_strlit("env");
                assert("prisma"@.len() != "env"@.len());
            } else if k == 4 {
                reveal_strlit("conf");
                assert("prisma"@.len() != "conf"@.len());
            } else if k == 5 {
                reveal_strlit("properties");
                assert("prisma"@.len() != "properties"@.len());
            } else if k == 6 {
                reveal_strlit("ini");
                assert("prisma"@.len() != "ini"@.len());
            }
        }
    }
    assert(schema_exts()[3]@ == e);
}

proof fn lemma_extension_rs(e: Seq<char>, name: Seq<char>)
    requires
        e == "rs"@,
    ensures
        role_by_extension(e, name) == if has_substring(name, "types"@) || has_substring(
            name,
            "interface"@,
        ) {
            FileRole::Interface
        } else {
            FileRole::CoreLogic
        },
{
    reveal_strlit("rs");
    assert(!one_of(e, style_exts())) by {
        assert forall|k: int| 0 <= k < style_exts().len() implies style_exts()[k]@ != e by {
            if k == 0 {
                reveal_strlit("css");
                assert("rs"@.len() != "css"@.len());
            } else if k == 1 {
                reveal_strlit("scss");
                assert("rs"@.len() != "scss"@.len());
            } else if k == 2 {
                reveal_strlit("less");
                assert("rs"@.len() != "less"@.len());
            } else if k == 3 {
                reveal_strlit("styl");
                assert("rs"@.len() != "styl"@.len());
            }
        }
    }
    assert(!one_of(e, data_exts())) by {
        assert forall|k: int| 0 <= k < data_exts().len() implies data_exts()[k]@ != e by {
            if k == 0 {
                reveal_strlit("json");
                assert("rs"@.len() != "json"@.len());
            } else if k == 1 {
                reveal_strlit("csv");
                assert("rs"@.len() != "csv"@.len());
            } else if k == 2 {
                reveal_strlit("sql");
                assert("rs"@.len() != "sql"@.len());
            }
        }
    }
    assert(!one_of(e, doc_exts())) by {
        assert forall|k: int| 0 <= k < doc_exts().len() implies doc_exts()[k]@ != e by {
            if k == 0 {
                reveal_strlit("md");
                assert("rs"@[0] != "md"@[0]);
            } else if k == 1 {
                reveal_strlit("mdx");
                assert("rs"@.len() != "mdx"@.len());
            } else if k == 2 {
                reveal_strlit("rst");
                assert("rs"@.len() != "rst"@.len());
            } else if k == 3 {
                reveal_strlit("txt");
                assert("rs"@.len() != "txt"@.len());
            } else if k == 4 {
                reveal_strlit("html");
                assert("rs"@.len() != "html"@.len());
            } else if k == 5 {
                reveal_strlit("htm");
                assert("rs"@.len() != "htm"@.len());
            }
        }
    }
    assert(!one_of(e, config_exts())) by {
        assert forall|k: int| 0 <= k < config_exts().len() implies config_exts()[k]@ != e by {
            if k == 0 {
                reveal_strlit("toml");
                assert("rs"@.len() != "toml"@.len());
            } else if k == 1 {
                reveal_strlit("yaml");
                assert("rs"@.len() != "yaml"@.len());
            } else if k == 2 {
                reveal_strlit("yml");
                assert("rs"@.len() != "yml"@.len());
            } else if k == 3 {
                reveal_strlit("env");
                assert("rs"@.len() != "env"@.len());
            } else if k == 4 {
                reveal_strlit("conf");
                assert("rs"@.len() != "conf"@.len());
            } else if k == 5 {
                reveal_strlit("properties");
                assert("rs"@.len() != "properties"@.len());
            } else if k == 6 {
                reveal_strlit("ini");
                assert("rs"@.len() != "ini"@.len());
            }
        }
    }
    assert(!one_of(e, schema_exts())) by {
        assert forall|k: int| 0 <= k < schema_exts().len() implies schema_exts()[k]@ != e by {
            if k == 0 {
                reveal_strlit("d.ts");
                assert("rs"@.len() != "d.ts"@.len());
            } else if k == 1 {
                reveal_strlit("graphql");
                assert("rs"@.len() != "graphql"@.len());
            } else if k == 2 {
                reveal_strlit("proto");
                assert("rs"@.len() != "proto"@.len());
            } else if k == 3 {
                reveal_strlit("prisma");
                assert("rs"@.len() != "prisma"@.len());
            }
        }
    }
    assert(source_exts()[0]@ == e);
}

proof fn lemma_extension_ts(e: Seq<char>, name: Seq<char>)
    requires
        e == "ts"@,
    ensures
        role_by_extension(e, name) == if has_substring(name, "types"@) || has_substring(
            name,
            "interface"@,
        ) {
            FileRole::Interface
        } else {
            FileRole::CoreLogic
        },
{
    reveal_strlit("ts");
    assert(!one_of(e, style_exts())) by {
        assert forall|k: int| 0 <= k < style_exts().len() implies style_exts()[k]@ != e by {
            if k == 0 {
                reveal_strlit("css");
                assert("ts"@.len() != "css"@.len());
            } else if k == 1 {
                reveal_strlit("scss");
                assert("ts"@.len() != "scss"@.len());
            } else if k == 2 {
                reveal_strlit("less");
                assert("ts"@.len() != "less"@.len());
            } else if k == 3 {
                reveal_strlit("styl");
                assert("ts"@.len() != "styl"@.len());
            }
        }
    }
    assert(!one_of(e, data_exts())) by {
        assert forall|k: int| 0 <= k < data_exts().len() implies data_exts()[k]@ != e by {
            if k == 0 {
                reveal_strlit("json");
                assert("ts"@.len() != "json"@.len());
            } else if k == 1 {
                reveal_strlit("csv");
                assert("ts"@.len() != "csv"@.len());
            } else if k == 2 {
                reveal_strlit("sql");
                assert("ts"@.len() != "sql"@.len());
            }
        }
    }
    assert(!one_of(e, doc_exts())) by {
        assert forall|k: int| 0 <= k < doc_exts().len() implies doc_exts()[k]@ != e by {
            if k == 0 {
                reveal_strlit("md");
                assert("ts"@[0] != "md"@[0]);
            } else if k == 1 {
                reveal_strlit("mdx");
                assert("ts"@.len() != "mdx"@.len());
            } else if k == 2 {
                reveal_strlit("rst");
                assert("ts"@.len() != "rst"@.len());
            } else if k == 3 {
                reveal_strlit("txt");
                assert("ts"@.len() != "txt"@.len());
            } else if k == 4 {
                reveal_strlit("html");
                assert("ts"@.len() != "html"@.len());
            } else if k == 5 {
                reveal_strlit("htm");
                assert("ts"@.len() != "htm"@.len());
            }
        }
    }
    assert(!one_of(e, config_exts())) by {
        assert forall|k: int| 0 <= k < config_exts().len() implies config_exts()[k]@ != e by {
            if k == 0 {
                reveal_strlit("toml");
                assert("ts"@.len() != "toml"@.len());
            } else if k == 1 {
                reveal_strlit("yaml");
                assert("ts"@.len() != "yaml"@.len());
            } else if k == 2 {
                reveal_strlit("yml");
                assert("ts"@.len() != "yml"@.len());
            } else if k == 3 {
                reveal_strlit("env");
                assert("ts"@.len() != "env"@.len());
            } else if k == 4 {
                reveal_strlit("conf");
                assert("ts"@.len() != "conf"@.len());
            } else if k == 5 {
                reveal_strlit("properties");
                assert("ts"@.len() != "properties"@.len());
            } else if k == 6 {
                reveal_strlit("ini");
                assert("ts"@.len() != "ini"@.len());
            }
        }
    }
    assert(!one_of(e, schema_exts())) by {
        assert forall|k: int| 0 <= k < schema_exts().len() implies schema_exts()[k]@ != e by {
            if k == 0 {
                reveal_strlit("d.ts");
                assert("ts"@.len() != "d.ts"@.len());
            } else if k == 1 {
                reveal_strlit("graphql");
                assert("ts"@.len() != "graphql"@.len());
            } else if k == 2 {
                reveal_strlit("proto");
                assert("ts"@.len() != "proto"@.len());
            } else if k == 3 {
                reveal_strlit("prisma");
                assert("ts"@.len() != "prisma"@.len());
            }
        }
    }
    assert(source_exts()[1]@ == e);
}

proof fn lemma_extension_js(e: Seq<char>, name: Seq<char>)
    requires
        e == "js"@,
    ensures
        role_by_extension(e, name) == if has_substring(name, "types"@) || has_substring(
            name,
            "interface"@,
        ) {
            FileRole::Interface
        } else {
            FileRole::CoreLogic
        },
{
    reveal_strlit("js");
    assert(!one_of(e, style_exts())) by {
        assert forall|k: int| 0 <= k < style_exts().len() implies style_exts()[k]@ != e by {
            if k == 0 {
                reveal_strlit("css");
                assert("js"@.len() != "css"@.len());
            } else if k == 1 {
                reveal_strlit("scss");
                assert("js"@.len() != "scss"@.len());
            } else if k == 2 {
                reveal_strlit("less");
                assert("js"@.len() != "less"@.len());
            } else if k == 3 {
                reveal_strlit("styl");
                assert("js"@.len() != "styl"@.len());
            }
        }
    }
    assert(!one_of(e, data_exts())) by {
        assert forall|k: int| 0 <= k < data_exts().len() implies data_exts()[k]@ != e by {
            if k == 0 {
                reveal_strlit("json");
                assert("js"@.len() != "json"@.len());
            } else if k == 1 {
                reveal_strlit("csv");
                assert("js"@.len() != "csv"@.len());
            } else if k == 2 {
                reveal_strlit("sql");
                assert("js"@.len() != "sql"@.len());
            }
        }
    }
    assert(!one_of(e, doc_exts())) by {
        assert forall|k: int| 0 <= k < doc_exts().len() implies doc_exts()[k]@ != e by {
            if k == 0 {
                reveal_strlit("md");
                assert("js"@[0] != "md"@[0]);
            } else if k == 1 {
                reveal_strlit("mdx");
                assert("js"@.len() != "mdx"@.len());
            } else if k == 2 {
                reveal_strlit("rst");
                assert("js"@.len() != "rst"@.len());
            } else if k == 3 {
                reveal_strlit("txt");
                assert("js"@.len() != "txt"@.len());
            } else if k == 4 {
                reveal_strlit("html");
                assert("js"@.len() != "html"@.len());
            } else if k == 5 {
                reveal_strlit("htm");
                assert("js"@.len() != "htm"@.len());
            }
        }
    }
    assert(!one_of(e, config_exts())) by {
        assert forall|k: int| 0 <= k < config_exts().len() implies config_exts()[k]@ != e by {
            if k == 0 {
                reveal_strlit("toml");
                assert("js"@.len() != "toml"@.len());
            } else if k == 1 {
                reveal_strlit("yaml");
                assert("js"@.len() != "yaml"@.len());
            } else if k == 2 {
                reveal_strlit("yml");
                assert("js"@.len() != "yml"@.len());
            } else if k == 3 {
                reveal_strlit("env");
                assert("js"@.len() != "env"@.len());
            } else if k == 4 {
                reveal_strlit("conf");
                assert("js"@.len() != "conf"@.len());
            } else if k == 5 {
                reveal_strlit("properties");
                assert("js"@.len() != "properties"@.len());
            } else if k == 6 {
                reveal_strlit("ini");
                assert("js"@.len() != "ini"@.len());
            }
        }
    }
    assert(!one_of(e, schema_exts())) by {
        assert forall|k: int| 0 <= k < schema_exts().len() implies schema_exts()[k]@ != e by {
            if k == 0 {
                reveal_strlit("d.ts");
                assert("js"@.len() != "d.ts"@.len());
            } else if k == 1 {
                reveal_strlit("graphql");
                assert("js"@.len() != "graphql"@.len());
            } else if k == 2 {
                reveal_strlit("proto");
                assert("js"@.len() != "proto"@.len());
            } else if k == 3 {
                reveal_strlit("prisma");
                assert("js"@.len() != "prisma"@.len());
            }
        }
    }
    assert(source_exts()[2]@ == e);
}

proof fn lemma_extension_py(e: Seq<char>, name: Seq<char>)
    requires
        e == "py"@,
    ensures
        role_by_extension(e, name) == if has_substring(name, "types"@) || has_substring(
            name,
            "interface"@,
        ) {
            FileRole::Interface
        } else {
            FileRole::CoreLogic
        },
{
    reveal_strlit("py");
    assert(!one_of(e, style_exts())) by {
        assert forall|k: int| 0 <= k < style_exts().len() implies style_exts()[k]@ != e by {
            if k == 0 {
                reveal_strlit("css");
                assert("py"@.len() != "css"@.len());
            } else if k == 1 {
                reveal_strlit("scss");
                assert("py"@.len() != "scss"@.len());
            } else if k == 2 {
                reveal_strlit("less");
                assert("py"@.len() != "less"@.len());
            } else if k == 3 {
                reveal_strlit("styl");
                assert("py"@.len() != "styl"@.len());
            }
        }
    }
    assert(!one_of(e, data_exts())) by {
        assert forall|k: int| 0 <= k < data_exts().len() implies data_exts()[k]@ != e by {
            if k == 0 {
                reveal_strlit("json");
                assert("py"@.len() != "json"@.len());
            } else if k == 1 {
                reveal_strlit("csv");
                assert("py"@.len() != "csv"@.len());
            } else if k == 2 {
                reveal_strlit("sql");
                assert("py"@.len() != "sql"@.len());
            }
        }
    }
    assert(!one_of(e, doc_exts())) by {
        assert forall|k: int| 0 <= k < doc_exts().len() implies doc_exts()[k]@ != e by {
            if k == 0 {
                reveal_strlit("md");
                assert("py"@[0] != "md"@[0]);
            } else if k == 1 {
                reveal_strlit("mdx");
                assert("py"@.len() != "mdx"@.len());
            } else if k == 2 {
                reveal_strlit("rst");
                assert("py"@.len() != "rst"@.len());
            } else if k == 3 {
                reveal_strlit("txt");
                assert("py"@.len() != "txt"@.len());
            } else if k == 4 {
                reveal_strlit("html");
                assert("py"@.len() != "html"@.len());
            } else if k == 5 {
                reveal_strlit("htm");
                assert("py"@.len() != "htm"@.len());
            }
        }
    }
    assert(!one_of(e, config_exts())) by {
        assert forall|k: int| 0 <= k < config_exts().len() implies config_exts()[k]@ != e by {
            if k == 0 {
                reveal_strlit("toml");
                assert("py"@.len() != "toml"@.len());
            } else if k == 1 {
                reveal_strlit("yaml");
                assert("py"@.len() != "yaml"@.len());
            } else if k == 2 {
                reveal_strlit("yml");
                assert("py"@.len() != "yml"@.len());
            } else if k == 3 {
                reveal_strlit("env");
                assert("py"@.len() != "env"@.len());
            } else if k == 4 {
                reveal_strlit("conf");
                assert("py"@.len() != "conf"@.len());
            } else if k == 5 {
                reveal_strlit("properties");
                assert("py"@.len() != "properties"@.len());
            } else if k == 6 {
                reveal_strlit("ini");
                assert("py"@.len() != "ini"@.len());
            }
        }
    }
    assert(!one_of(e, schema_exts())) by {
        assert forall|k: int| 0 <= k < schema_exts().len() implies schema_exts()[k]@ != e by {
            if k == 0 {
                reveal_strlit("d.ts");
                assert("py"@.len() != "d.ts"@.len());
            } else if k == 1 {
                reveal_strlit("graphql");
                assert("py"@.len() != "graphql"@.len());
            } else if k == 2 {
                reveal_strlit("proto");
                assert("py"@.len() != "proto"@.len());
            } else if k == 3 {
                reveal_strlit("prisma");
                assert("py"@.len() != "prisma"@.len());
            }
        }
    }
    assert(source_exts()[3]@ == e);
}

proof fn lemma_extension_go(e: Seq<char>, name: Seq<char>)
    requires
        e == "go"@,
    ensures
        role_by_extension(e, name) == if has_substring(name, "types"@) || has_substring(
            name,
            "interface"@,
        ) {
            FileRole::Interface
        } else {
            FileRole::CoreLogic
        },
{
    reveal_strlit("go");
    assert(!one_of(e, style_exts())) by {
        assert forall|k: int| 0 <= k < style_exts().len() implies style_exts()[k]@ != e by {
            if k == 0 {
                reveal_strlit("css");
                assert("go"@.len() != "css"@.len());
            } else if k == 1 {
                reveal_strlit("scss");
                assert("go"@.len() != "scss"@.len());
            } else if k == 2 {
                reveal_strlit("less");
                assert("go"@.len() != "less"@.len());
            } else if k == 3 {
                reveal_strlit("styl");
                assert("go"@.len() != "styl"@.len());
            }
        }
    }
    assert(!one_of(e, data_exts())) by {
        assert forall|k: int| 0 <= k < data_exts().len() implies data_exts()[k]@ != e by {
            if k == 0 {
                reveal_strlit("json");
                assert("go"@.len() != "json"@.len());
            } else if k == 1 {
                reveal_strlit("csv");
                assert("go"@.len() != "csv"@.len());
            } else if k == 2 {
                reveal_strlit("sql");
                assert("go"@.len() != "sql"@.len());
            }
        }
    }
    assert(!one_of(e, doc_exts())) by {
        assert forall|k: int| 0 <= k < doc_exts().len() implies doc_exts()[k]@ != e by {
            if k == 0 {
                reveal_strlit("md");
                assert("go"@[0] != "md"@[0]);
            } else if k == 1 {
                reveal_strlit("mdx");
                assert("go"@.len() != "mdx"@.len());
            } else if k == 2 {
                reveal_strlit("rst");
                assert("go"@.len() != "rst"@.len());
            } else if k == 3 {
                reveal_strlit("txt");
                assert("go"@.len() != "txt"@.len());
            } else if k == 4 {
                reveal_strlit("html");
                assert("go"@.len() != "html"@.len());
            } else if k == 5 {
                reveal_strlit("htm");
                assert("go"@.len() != "htm"@.len());
            }
        }
    }
    assert(!one_of(e, config_exts())) by {
        assert forall|k: int| 0 <= k < config_exts().len() implies config_exts()[k]@ != e by {
            if k == 0 {
                reveal_strlit("toml");
                assert("go"@.len() != "toml"@.len());
            } else if k == 1 {
                reveal_strlit("yaml");
                assert("go"@.len() != "yaml"@.len());
            } else if k == 2 {
                reveal_strlit("yml");
                assert("go"@.len() != "yml"@.len());
            } else if k == 3 {
                reveal_strlit("env");
                assert("go"@.len() != "env"@.len());
            } else if k == 4 {
                reveal_strlit("conf");
                assert("go"@.len() != "conf"@.len());
            } else if k == 5 {
                reveal_strlit("properties");
                assert("go"@.len() != "properties"@.len());
            } else if k == 6 {
                reveal_strlit("ini");
                assert("go"@.len() != "ini"@.len());
            }
        }
    }
    assert(!one_of(e, schema_exts())) by {
        assert forall|k: int| 0 <= k < schema_exts().len() implies schema_exts()[k]@ != e by {
            if k == 0 {
                reveal_strlit("d.ts");
                assert("go"@.len() != "d.ts"@.len());
            } else if k == 1 {
                reveal_strlit("graphql");
                assert("go"@.len() != "graphql"@.len());
            } else if k == 2 {
                reveal_strlit("proto");
                assert("go"@.len() != "proto"@.len());
            } else if k == 3 {
                reveal_strlit("prisma");
                assert("go"@.len() != "prisma"@.len());
            }
        }
    }
    assert(source_exts()[4]@ == e);
}

proof fn lemma_extension_java(e: Seq<char>, name: Seq<char>)
    requires
        e == "java"@,
    ensures
        role_by_extension(e, name) == if has_substring(name, "types"@) || has_substring(
            name,
            "interface"@,
        ) {
            FileRole::Interface
        } else {
            FileRole::CoreLogic
        },
{
    reveal_strlit("java");
    assert(!one_of(e, style_exts())) by {
        assert forall|k: int| 0 <= k < style_exts().len() implies style_exts()[k]@ != e by {
            if k == 0 {
                reveal_strlit("css");
                assert("java"@.len() != "css"@.len());
            } else if k == 1 {
                reveal_strlit("scss");
                assert("java"@[0] != "scss"@[0]);
            } else if k == 2 {
                reveal_strlit("less");
                assert("java"@[0] != "less"@[0]);
            } else if k == 3 {
                reveal_strlit("styl");
                assert("java"@[0] != "styl"@[0]);
            }
        }
    }
    assert(!one_of(e, data_exts())) by {
        assert forall|k: int| 0 <= k < data_exts().len() implies data_exts()[k]@ != e by {
            if k == 0 {
                reveal_strlit("json");
                assert("java"@[1] != "json"@[1]);
            } else if k == 1 {
                reveal_strlit("csv");
                assert("java"@.len() != "csv"@.len());
            } else if k == 2 {
                reveal_strlit("sql");
                assert("java"@.len() != "sql"@.len());
            }
        }
    }
    assert(!one_of(e, doc_exts())) by {
        assert forall|k: int| 0 <= k < doc_exts().len() implies doc_exts()[k]@ != e by {
            if k == 0 {
                reveal_strlit("md");
                assert("java"@.len() != "md"@.len());
            } else if k == 1 {
                reveal_strlit("mdx");
                assert("java"@.len() != "mdx"@.len());
            } else if k == 2 {
                reveal_strlit("rst");
                assert("java"@.len() != "rst"@.len());
            } else if k == 3 {
                reveal_strlit("txt");
                assert("java"@.len() != "txt"@.len());
            } else if k == 4 {
                reveal_strlit("html");
                assert("java"@[0] != "html"@[0]);
            } else if k == 5 {
                reveal_strlit("htm");
                assert("java"@.len() != "htm"@.len());
            }
        }
    }
    assert(!one_of(e, config_exts())) by {
        assert forall|k: int| 0 <= k < config_exts().len() implies config_exts()[k]@ != e by {
            if k == 0 {
                reveal_strlit("toml");
                assert("java"@[0] != "toml"@[0]);
            } else if k == 1 {
                reveal_strlit("yaml");
                assert("java"@[0] != "yaml"@[0]);
            } else if k == 2 {
                reveal_strlit("yml");
                assert("java"@.len() != "yml"@.len());
            } else if k == 3 {
                reveal_strlit("env");
                assert("java"@.len() != "env"@.len());
            } else if k == 4 {
                reveal_strlit("conf");
                assert("java"@[0] != "conf"@[0]);
            } else if k == 5 {
                reveal_strlit("properties");
                assert("java"@.len() != "properties"@.len());
            } else if k == 6 {
                reveal_strlit("ini");
                assert("java"@.len() != "ini"@.len());
            }
        }
    }
    assert(!one_of(e, schema_exts())) by {
        assert forall|k: int| 0 <= k < schema_exts().len() implies schema_exts()[k]@ != e by {
            if k == 0 {
                reveal_strlit("d.ts");
                assert("java"@[0] != "d.ts"@[0]);
            } else if k == 1 {
                reveal_strlit("graphql");
                assert("java"@.len() != "graphql"@.len());
            } else if k == 2 {
                reveal_strlit("proto");
                assert("java"@.len() != "proto"@.len());
            } else if k == 3 {
                reveal_strlit("prisma");
                assert("java"@.len() != "prisma"@.len());
            }
        }
    }
    assert(source_exts()[5]@ == e);
}

proof fn lemma_extension_c(e: Seq<char>, name: Seq<char>)
    requires
        e == "c"@,
    ensures
        role_by_extension(e, name) == if has_substring(name, "types"@) || has_substring(
            name,
            "interface"@,
        ) {
            FileRole::Interface
        } else {
            FileRole::CoreLogic
        },
{
    reveal_strlit("c");
    assert(!one_of(e, style_exts())) by {
        assert forall|k: int| 0 <= k < style_exts().len() implies style_exts()[k]@ != e by {
            if k == 0 {
                reveal_strlit("css");
                assert("c"@.len() != "css"@.len());
            } else if k == 1 {
                reveal_strlit("scss");
                assert("c"@.len() != "scss"@.len());
            } else if k == 2 {
                reveal_strlit("less");
                assert("c"@.len() != "less"@.len());
            } else if k == 3 {
                reveal_strlit("styl");
                assert("c"@.len() != "styl"@.len());
            }
        }
    }
    assert(!one_of(e, data_exts())) by {
        assert forall|k: int| 0 <= k < data_exts().len() implies data_exts()[k]@ != e by {
            if k == 0 {
                reveal_strlit("json");
                assert("c"@.len() != "json"@.len());
            } else if k == 1 {
                reveal_strlit("csv");
                assert("c"@.len() != "csv"@.len());
            } else if k == 2 {
                reveal_strlit("sql");
                assert("c"@.len() != "sql"@.len());
            }
        }
    }
    assert(!one_of(e, doc_exts())) by {
        assert forall|k: int| 0 <= k < doc_exts().len() implies doc_exts()[k]@ != e by {
            if k == 0 {
                reveal_strlit("md");
                assert("c"@.len() != "md"@.len());
            } else if k == 1 {
                reveal_strlit("mdx");
                assert("c"@.len() != "mdx"@.len());
            } else if k == 2 {
                reveal_strlit("rst");
                assert("c"@.len() != "rst"@.len());
            } else if k == 3 {
                reveal_strlit("txt");
                assert("c"@.len() != "txt"@.len());
            } else if k == 4 {
                reveal_strlit("html");
                assert("c"@.len() != "html"@.len());
            } else if k == 5 {
                reveal_strlit("htm");
                assert("c"@.len() != "htm"@.len());
            }
        }
    }
    assert(!one_of(e, config_exts())) by {
        assert forall|k: int| 0 <= k < config_exts().len() implies config_exts()[k]@ != e by {
            if k == 0 {
                reveal_strlit("toml");
                assert("c"@.len() != "toml"@.len());
            } else if k == 1 {
                reveal_strlit("yaml");
                assert("c"@.len() != "yaml"@.len());
            } else if k == 2 {
                reveal_strlit("yml");
                assert("c"@.len() != "yml"@.len());
            } else if k == 3 {
                reveal_strlit("env");
                assert("c"@.len() != "env"@.len());
            } else if k == 4 {
                reveal_strlit("conf");
                assert("c"@.len() != "conf"@.len());
            } else if k == 5 {
                reveal_strlit("properties");
                assert("c"@.len() != "properties"@.len());
            } else if k == 6 {
                reveal_strlit("ini");
                assert("c"@.len() != "ini"@.len());
            }
        }
    }
    assert(!one_of(e, schema_exts())) by {
        assert forall|k: int| 0 <= k < schema_exts().len() implies schema_exts()[k]@ != e by {
            if k == 0 {
                reveal_strlit("d.ts");
                assert("c"@.len() != "d.ts"@.len());
            } else if k == 1 {
                reveal_strlit("graphql");
                assert("c"@.len() != "graphql"@.len());
            } else if k == 2 {
                reveal_strlit("proto");
                assert("c"@.len() != "proto"@.len());
            } else if k == 3 {
                reveal_strlit("prisma");
                assert("c"@.len() != "prisma"@.len());
            }
        }
    }
    assert(source_exts()[6]@ == e);
}

proof fn lemma_extension_cpp(e: Seq<char>, name: Seq<char>)
    requires
        e == "cpp"@,
    ensures
        role_by_extension(e, name) == if has_substring(name, "types"@) || has_substring(
            name,
            "interface"@,
        ) {
            FileRole::Interface
        } else {
            FileRole::CoreLogic
        },
{
    reveal_strlit("cpp");
    assert(!one_of(e, style_exts())) by {
        assert forall|k: int| 0 <= k < style_exts().len() implies style_exts()[k]@ != e by {
            if k == 0 {
                reveal_strlit("css");
                assert("cpp"@[1] != "css"@[1]);
            } else if k == 1 {
                reveal_strlit("scss");
                assert("cpp"@.len() != "scss"@.len());
            } else if k == 2 {
                reveal_strlit("less");
                assert("cpp"@.len() != "less"@.len());
            } else if k == 3 {
                reveal_strlit("styl");
                assert("cpp"@.len() != "styl"@.len());
            }
        }
    }
    assert(!one_of(e, data_exts())) by {
        assert forall|k: int| 0 <= k < data_exts().len() implies data_exts()[k]@ != e by {
            if k == 0 {
                reveal_strlit("json");
                assert("cpp"@.len() != "json"@.len());
            } else if k == 1 {
                reveal_strlit("csv");
                assert("cpp"@[1] != "csv"@[1]);
            } else if k == 2 {
                reveal_strlit("sql");
                assert("cpp"@[0] != "sql"@[0]);
            }
        }
    }
    assert(!one_of(e, doc_exts())) by {
        assert forall|k: int| 0 <= k < doc_exts().len() implies doc_exts()[k]@ != e by {
            if k == 0 {
                reveal_strlit("md");
                assert("cpp"@.len() != "md"@.len());
            } else if k == 1 {
                reveal_strlit("mdx");
                assert("cpp"@[0] != "mdx"@[0]);
            } else if k == 2 {
                reveal_strlit("rst");
                assert("cpp"@[0] != "rst"@[0]);
            } else if k == 3 {
                reveal_strlit("txt");
                assert("cpp"@[0] != "txt"@[0]);
            } else if k == 4 {
                reveal_strlit("html");
                assert("cpp"@.len() != "html"@.len());
            } else if k == 5 {
                reveal_strlit("htm");
                assert("cpp"@[0] != "htm"@[0]);
            }
        }
    }
    assert(!one_of(e, config_exts())) by {
        assert forall|k: int| 0 <= k < config_exts().len() implies config_exts()[k]@ != e by {
            if k == 0 {
                reveal_strlit("toml");
                assert("cpp"@.len() != "toml"@.len());
            } else if k == 1 {
                reveal_strlit("yaml");
                assert("cpp"@.len() != "yaml"@.len());
            } else if k == 2 {
                reveal_strlit("yml");
                assert("cpp"@[0] != "yml"@[0]);
            } else if k == 3 {
                reveal_strlit("env");
                assert("cpp"@[0] != "env"@[0]);
            } else if k == 4 {
                reveal_strlit("conf");
                assert("cpp"@.len() != "conf"@.len());
            } else if k == 5 {
                reveal_strlit("properties");
                assert("cpp"@.len() != "properties"@.len());
            } else if k == 6 {
                reveal_strlit("ini");
                assert("cpp"@[0] != "ini"@[0]);
            }
        }
    }
    assert(!one_of(e, schema_exts())) by {
        assert forall|k: int| 0 <= k < schema_exts().len() implies schema_exts()[k]@ != e by {
            if k == 0 {
                reveal_strlit("d.ts");
                assert("cpp"@.len() != "d.ts"@.len());
            } else if k == 1 {
                reveal_strlit("graphql");
                assert("cpp"@.len() != "graphql"@.len());
            } else if k == 2 {
                reveal_strlit("proto");
                assert("cpp"@.len() != "proto"@.len());
            } else if k == 3 {
                reveal_strlit("prisma");
                assert("cpp"@.len() != "prisma"@.len());
            }
        }
    }
    assert(source_exts()[7]@ == e);
}

proof fn lemma_extension_h(e: Seq<char>, name: Seq<char>)
    requires
        e == "h"@,
    ensures
        role_by_extension(e, name) == if has_substring(name, "types"@) || has_substring(
            name,
            "interface"@,
        ) {
            FileRole::Interface
        } else {
            FileRole::CoreLogic
        },
{
    reveal_strlit("h");
    assert(!one_of(e, style_exts())) by {
        assert forall|k: int| 0 <= k < style_exts().len() implies style_exts()[k]@ != e by {
            if k == 0 {
                reveal_strlit("css");
                assert("h"@.len() != "css"@.len());
            } else if k == 1 {
                reveal_strlit("scss");
                assert("h"@.len() != "scss"@.len());
            } else if k == 2 {
                reveal_strlit("less");
                assert("h"@.len() != "less"@.len());
            } else if k == 3 {
                reveal_strlit("styl");
                assert("h"@.len() != "styl"@.len());
            }
        }
    }
    assert(!one_of(e, data_exts())) by {
        assert forall|k: int| 0 <= k < data_exts().len() implies data_exts()[k]@ != e by {
            if k == 0 {
                reveal_strlit("json");
                assert("h"@.len() != "json"@.len());
            } else if k == 1 {
                reveal_strlit("csv");
                assert("h"@.len() != "csv"@.len());
            } else if k == 2 {
                reveal_strlit("sql");
                assert("h"@.len() != "sql"@.len());
            }
        }
    }
    assert(!one_of(e, doc_exts())) by {
        assert forall|k: int| 0 <= k < doc_exts().len() implies doc_exts()[k]@ != e by {
            if k == 0 {
                reveal_strlit("md");
                assert("h"@.len() != "md"@.len());
            } else if k == 1 {
                reveal_strlit("mdx");
                assert("h"@.len() != "mdx"@.len());
            } else if k == 2 {
                reveal_strlit("rst");
                assert("h"@.len() != "rst"@.len());
            } else if k == 3 {
                reveal_strlit("txt");
                assert("h"@.len() != "txt"@.len());
            } else if k == 4 {
                reveal_strlit("html");
                assert("h"@.len() != "html"@.len());
            } else if k == 5 {
                reveal_strlit("htm");
                assert("h"@.len() != "htm"@.len());
            }
        }
    }
    assert(!one_of(e, config_exts())) by {
        assert forall|k: int| 0 <= k < config_exts().len() implies config_exts()[k]@ != e by {
            if k == 0 {
                reveal_strlit("toml");
                assert("h"@.len() != "toml"@.len());
            } else if k == 1 {
                reveal_strlit("yaml");
                assert("h"@.len() != "yaml"@.len());
            } else if k == 2 {
                reveal_strlit("yml");
                assert("h"@.len() != "yml"@.len());
            } else if k == 3 {
                reveal_strlit("env");
                assert("h"@.len() != "env"@.len());
            } else if k == 4 {
                reveal_strlit("conf");
                assert("h"@.len() != "conf"@.len());
            } else if k == 5 {
                reveal_strlit("properties");
                assert("h"@.len() != "properties"@.len());
            } else if k == 6 {
                reveal_strlit("ini");
                assert("h"@.len() != "ini"@.len());
            }
        }
    }
    assert(!one_of(e, schema_exts())) by {
        assert forall|k: int| 0 <= k < schema_exts().len() implies schema_exts()[k]@ != e by {
            if k == 0 {
                reveal_strlit("d.ts");
                assert("h"@.len() != "d.ts"@.len());
            } else if k == 1 {
                reveal_strlit("graphql");
                assert("h"@.len() != "graphql"@.len());
            } else if k == 2 {
                reveal_strlit("proto");
                assert("h"@.len() != "proto"@.len());
            } else if k == 3 {
                reveal_strlit("prisma");
                assert("h"@.len() != "prisma"@.len());
            }
        }
    }
    assert(source_exts()[8]@ == e);
}

proof fn lemma_extension_tsx(e: Seq<char>, name: Seq<char>)
    requires
        e == "tsx"@,
    ensures
        role_by_extension(e, name) == if has_substring(name, "types"@) || has_substring(
            name,
            "interface"@,
        ) {
            FileRole::Interface
        } else {
            FileRole::CoreLogic
        },
{
    reveal_strlit("tsx");
    assert(!one_of(e, style_exts())) by {
        assert forall|k: int| 0 <= k < style_exts().len() implies style_exts()[k]@ != e by {
            if k == 0 {
                reveal_strlit("css");
                assert("tsx"@[0] != "css"@[0]);
            } else if k == 1 {
                reveal_strlit("scss");
                assert("tsx"@.len() != "scss"@.len());
            } else if k == 2 {
                reveal_strlit("less");
                assert("tsx"@.len() != "less"@.len());
            } else if k == 3 {
                reveal_strlit("styl");
                assert("tsx"@.len() != "styl"@.len());
            }
        }
    }
    assert(!one_of(e, data_exts())) by {
        assert forall|k: int| 0 <= k < data_exts().len() implies data_exts()[k]@ != e by {
            if k == 0 {
                reveal_strlit("json");
                assert("tsx"@.len() != "json"@.len());
            } else if k == 1 {
                reveal_strlit("csv");
                assert("tsx"@[0] != "csv"@[0]);
            } else if k == 2 {
                reveal_strlit("sql");
                assert("tsx"@[0] != "sql"@[0]);
            }
        }
    }
    assert(!one_of(e, doc_exts())) by {
        assert forall|k: int| 0 <= k < doc_exts().len() implies doc_exts()[k]@ != e by {
            if k == 0 {
                reveal_strlit("md");
                assert("tsx"@.len() != "md"@.len());
            } else if k == 1 {
                reveal_strlit("mdx");
                assert("tsx"@[0] != "mdx"@[0]);
            } else if k == 2 {
                reveal_strlit("rst");
                assert("tsx"@[0] != "rst"@[0]);
            } else if k == 3 {
                reveal_strlit("txt");
                assert("tsx"@[1] != "txt"@[1]);
            } else if k == 4 {
                reveal_strlit("html");
                assert("tsx"@.len() != "html"@.len());
            } else if k == 5 {
                reveal_strlit("htm");
                assert("tsx"@[0] != "htm"@[0]);
            }
        }
    }
    assert(!one_of(e, config_exts())) by {
        assert forall|k: int| 0 <= k < config_exts().len() implies config_exts()[k]@ != e by {
            if k == 0 {
                reveal_strlit("toml");
                assert("tsx"@.len() != "toml"@.len());
            } else if k == 1 {
                reveal_strlit("yaml");
                assert("tsx"@.len() != "yaml"@.len());
            } else if k == 2 {
                reveal_strlit("yml");
                assert("tsx"@[0] != "yml"@[0]);
            } else if k == 3 {
                reveal_strlit("env");
                assert("tsx"@[0] != "env"@[0]);
            } else if k == 4 {
                reveal_strlit("conf");
                assert("tsx"@.len() != "conf"@.len());
            } else if k == 5 {
                reveal_strlit("properties");
                assert("tsx"@.len() != "properties"@.len());
            } else if k == 6 {
                reveal_strlit("ini");
                assert("tsx"@[0] != "ini"@[0]);
            }
        }
    }
    assert(!one_of(e, schema_exts())) by {
        assert forall|k: int| 0 <= k < schema_exts().len() implies schema_exts()[k]@ != e by {
            if k == 0 {
                reveal_strlit("d.ts");
                assert("tsx"@.len() != "d.ts"@.len());
            } else if k == 1 {
                reveal_strlit("graphql");
                assert("tsx"@.len() != "graphql"@.len());
            } else if k == 2 {
                reveal_strlit("proto");
                assert("tsx"@.len() != "proto"@.len());
            } else if k == 3 {
                reveal_strlit("prisma");
                assert("tsx"@.len() != "prisma"@.len());
            }
        }
    }
    assert(source_exts()[9]@ == e);
}

proof fn lemma_extension_jsx(e: Seq<char>, name: Seq<char>)
    requires
        e == "jsx"@,
    ensures
        role_by_extension(e, name) == if has_substring(name, "types"@) || has_substring(
            name,
            "interface"@,
        ) {
            FileRole::Interface
        } else {
            FileRole::CoreLogic
        },
{
    reveal_strlit("jsx");
    assert(!one_of(e, style_exts())) by {
        assert forall|k: int| 0 <= k < style_exts().len() implies style_exts()[k]@ != e by {
            if k == 0 {
                reveal_strlit("css");
                assert("jsx"@[0] != "css"@[0]);
            } else if k == 1 {
                reveal_strlit("scss");
                assert("jsx"@.len() != "scss"@.len());
            } else if k == 2 {
                reveal_strlit("less");
                assert("jsx"@.len() != "less"@.len());
            } else if k == 3 {
                reveal_strlit("styl");
                assert("jsx"@.len() != "styl"@.len());
            }
        }
    }
    assert(!one_of(e, data_exts())) by {
        assert forall|k: int| 0 <= k < data_exts().len() implies data_exts()[k]@ != e by {
            if k == 0 {
                reveal_strlit("json");
                assert("jsx"@.len() != "json"@.len());
            } else if k == 1 {
                reveal_strlit("csv");
                assert("jsx"@[0] != "csv"@[0]);
            } else if k == 2 {
                reveal_strlit("sql");
                assert("jsx"@[0] != "sql"@[0]);
            }
        }
    }
    assert(!one_of(e, doc_exts())) by {
        assert forall|k: int| 0 <= k < doc_exts().len() implies doc_exts()[k]@ != e by {
            if k == 0 {
                reveal_strlit("md");
                assert("jsx"@.len() != "md"@.len());
            } else if k == 1 {
                reveal_strlit("mdx");
                assert("jsx"@[0] != "mdx"@[0]);
            } else if k == 2 {
                reveal_strlit("rst");
                assert("jsx"@[0] != "rst"@[0]);
            } else if k == 3 {
                reveal_strlit("txt");
                assert("jsx"@[0] != "txt"@[0]);
            } else if k == 4 {
                reveal_strlit("html");
                assert("jsx"@.len() != "html"@.len());
            } else if k == 5 {
                reveal_strlit("htm");
                assert("jsx"@[0] != "htm"@[0]);
            }
        }
    }
    assert(!one_of(e, config_exts())) by {
        assert forall|k: int| 0 <= k < config_exts().len() implies config_exts()[k]@ != e by {
            if k == 0 {
                reveal_strlit("toml");
                assert("jsx"@.len() != "toml"@.len());
            } else if k == 1 {
                reveal_strlit("yaml");
                assert("jsx"@.len() != "yaml"@.len());
            } else if k == 2 {
                reveal_strlit("yml");
                assert("jsx"@[0] != "yml"@[0]);
            } else if k == 3 {
                reveal_strlit("env");
                assert("jsx"@[0] != "env"@[0]);
            } else if k == 4 {
                reveal_strlit("conf");
                assert("jsx"@.len() != "conf"@.len());
            } else if k == 5 {
                reveal_strlit("properties");
                assert("jsx"@.len() != "properties"@.len());
            } else if k == 6 {
                reveal_strlit("ini");
                assert("jsx"@[0] != "ini"@[0]);
            }
        }
    }
    assert(!one_of(e, schema_exts())) by {
        assert forall|k: int| 0 <= k < schema_exts().len() implies schema_exts()[k]@ != e by {
            if k == 0 {
                reveal_strlit("d.ts");
                assert("jsx"@.len() != "d.ts"@.len());
            } else if k == 1 {
                reveal_strlit("graphql");
                assert("jsx"@.len() != "graphql"@.len());
            } else if k == 2 {
                reveal_strlit("proto");
                assert("jsx"@.len() != "proto"@.len());
            } else if k == 3 {
                reveal_strlit("prisma");
                assert("jsx"@.len() != "prisma"@.len());
            }
        }
    }
    assert(source_exts()[10]@ == e);
}

proof fn lemma_extension_png(e: Seq<char>, name: Seq<char>)
    requires
        e == "png"@,
    ensures
        role_by_extension(e, name) == FileRole::Generated,
{
    reveal_strlit("png");
    assert(!one_of(e, style_exts())) by {
        assert forall|k: int| 0 <= k < style_exts().len() implies style_exts()[k]@ != e by {
            if k == 0 {
                reveal_strlit("css");
                assert("png"@[0] != "css"@[0]);
            } else if k == 1 {
                reveal_strlit("scss");
                assert("png"@.len() != "scss"@.len());
            } else if k == 2 {
                reveal_strlit("less");
                assert("png"@.len() != "less"@.len());
            } else if k == 3 {
                reveal_strlit("styl");
                assert("png"@.len() != "styl"@.len());
            }
        }
    }
    assert(!one_of(e, data_exts())) by {
        assert forall|k: int| 0 <= k < data_exts().len() implies data_exts()[k]@ != e by {
            if k == 0 {
                reveal_strlit("json");
                assert("png"@.len() != "json"@.len());
            } else if k == 1 {
                reveal_strlit("csv");
                assert("png"@[0] != "csv"@[0]);
            } else if k == 2 {
                reveal_strlit("sql");
                assert("png"@[0] != "sql"@[0]);
            }
        }
    }
    assert(!one_of(e, doc_exts())) by {
        assert forall|k: int| 0 <= k < doc_exts().len() implies doc_exts()[k]@ != e by {
            if k == 0 {
                reveal_strlit("md");
                assert("png"@.len() != "md"@.len());
            } else if k == 1 {
                reveal_strlit("mdx");
                assert("png"@[0] != "mdx"@[0]);
            } else if k == 2 {
                reveal_strlit("rst");
                assert("png"@[0] != "rst"@[0]);
            } else if k == 3 {
                reveal_strlit("txt");
                assert("png"@[0] != "txt"@[0]);
            } else if k == 4 {
                reveal_strlit("html");
                assert("png"@.len() != "html"@.len());
            } else if k == 5 {
                reveal_strlit("htm");
                assert("png"@[0] != "htm"@[0]);
            }
        }
    }
    assert(!one_of(e, config_exts())) by {
        assert forall|k: int| 0 <= k < config_exts().len() implies config_exts()[k]@ != e by {
            if k == 0 {
                reveal_strlit("toml");
                assert("png"@.len() != "toml"@.len());
            } else if k == 1 {
                reveal_strlit("yaml");
                assert("png"@.len() != "yaml"@.len());
            } else if k == 2 {
                reveal_strlit("yml");
                assert("png"@[0] != "yml"@[0]);
            } else if k == 3 {
                reveal_strlit("env");
                assert("png"@[0] != "env"@[0]);
            } else if k == 4 {
                reveal_strlit("conf");
                assert("png"@.len() != "conf"@.len());
            } else if k == 5 {
                reveal_strlit("properties");
                assert("png"@.len() != "properties"@.len());
            } else if k == 6 {
                reveal_strlit("ini");
                assert("png"@[0] != "ini"@[0]);
            }
        }
    }
    assert(!one_of(e, schema_exts())) by {
        assert forall|k: int| 0 <= k < schema_exts().len() implies schema_exts()[k]@ != e by {
            if k == 0 {
                reveal_strlit("d.ts");
                assert("png"@.len() != "d.ts"@.len());
            } else if k == 1 {
                reveal_strlit("graphql");
                assert("png"@.len() != "graphql"@.len());
            } else if k == 2 {
                reveal_strlit("proto");
                assert("png"@.len() != "proto"@.len());
            } else if k == 3 {
                reveal_strlit("prisma");
                assert("png"@.len() != "prisma"@.len());
            }
        }
    }
    assert(!one_of(e, source_exts())) by {
        assert forall|k: int| 0 <= k < source_exts().len() implies source_exts()[k]@ != e by {
            if k == 0 {
                reveal_strlit("rs");
                assert("png"@.len() != "rs"@.len());
            } else if k == 1 {
                reveal_strlit("ts");
                assert("png"@.len() != "ts"@.len());
            } else if k == 2 {
                reveal_strlit("js");
                assert("png"@.len() != "js"@.len());
            } else if k == 3 {
                reveal_strlit("py");
                assert("png"@.len() != "py"@.len());
            } else if k == 4 {
                reveal_strlit("go");
                assert("png"@.len() != "go"@.len());
            } else if k == 5 {
                reveal_strlit("java");
                assert("png"@.len() != "java"@.len());
            } else if k == 6 {
                reveal_strlit("c");
                assert("png"@.len() != "c"@.len());
            } else if k == 7 {
                reveal_strlit("cpp");
                assert("png"@[0] != "cpp"@[0]);
            } else if k == 8 {
                reveal_strlit("h");
                assert("png"@.len() != "h"@.len());
            } else if k == 9 {
                reveal_strlit("tsx");
                assert("png"@[0] != "tsx"@[0]);
            } else if k == 10 {
                reveal_strlit("jsx");
                assert("png"@[0] != "jsx"@[0]);
            }
        }
    }
    assert(binary_exts()[0]@ == e);
}

proof fn lemma_extension_jpg(e: Seq<char>, name: Seq<char>)
    requires
        e == "jpg"@,
    ensures
        role_by_extension(e, name) == FileRole::Generated,
{
    reveal_strlit("jpg");
    assert(!one_of(e, style_exts())) by {
        assert forall|k: int| 0 <= k < style_exts().len() implies style_exts()[k]@ != e by {
            if k == 0 {
                reveal_strlit("css");
                assert("jpg"@[0] != "css"@[0]);
            } else if k == 1 {
                reveal_strlit("scss");
                assert("jpg"@.len() != "scss"@.len());
            } else if k == 2 {
                reveal_strlit("less");
                assert("jpg"@.len() != "less"@.len());
            } else if k == 3 {
                reveal_strlit("styl");
                assert("jpg"@.len() != "styl"@.len());
            }
        }
    }
    assert(!one_of(e, data_exts())) by {
        assert forall|k: int| 0 <= k < data_exts().len() implies data_exts()[k]@ != e by {
            if k == 0 {
                reveal_strlit("json");
                assert("jpg"@.len() != "json"@.len());
            } else if k == 1 {
                reveal_strlit("csv");
                assert("jpg"@[0] != "csv"@[0]);
            } else if k == 2 {
                reveal_strlit("sql");
                assert("jpg"@[0] != "sql"@[0]);
            }
        }
    }
    assert(!one_of(e, doc_exts())) by {
        assert forall|k: int| 0 <= k < doc_exts().len() implies doc_exts()[k]@ != e by {
            if k == 0 {
                reveal_strlit("md");
                assert("jpg"@.len() != "md"@.len());
            } else if k == 1 {
                reveal_strlit("mdx");
                assert("jpg"@[0] != "mdx"@[0]);
            } else if k == 2 {
                reveal_strlit("rst");
                assert("jpg"@[0] != "rst"@[0]);
            } else if k == 3 {
                reveal_strlit("txt");
                assert("jpg"@[0] != "txt"@[0]);
            } else if k == 4 {
                reveal_strlit("html");
                assert("jpg"@.len() != "html"@.len());
            } else if k == 5 {
                reveal_strlit("htm");
                assert("jpg"@[0] != "htm"@[0]);
            }
        }
    }
    assert(!one_of(e, config_exts())) by {
        assert forall|k: int| 0 <= k < config_exts().len() implies config_exts()[k]@ != e by {
            if k == 0 {
                reveal_strlit("toml");
                assert("jpg"@.len() != "toml"@.len());
            } else if k == 1 {
                reveal_strlit("yaml");
                assert("jpg"@.len() != "yaml"@.len());
            } else if k == 2 {
                reveal_strlit("yml");
                assert("jpg"@[0] != "yml"@[0]);
            } else if k == 3 {
                reveal_strlit("env");
                assert("jpg"@[0] != "env"@[0]);
            } else if k == 4 {
                reveal_strlit("conf");
                assert("jpg"@.len() != "conf"@.len());
            } else if k == 5 {
                reveal_strlit("properties");
                assert("jpg"@.len() != "properties"@.len());
            } else if k == 6 {
                reveal_strlit("ini");
                assert("jpg"@[0] != "ini"@[0]);
            }
        }
    }
    assert(!one_of(e, schema_exts())) by {
        assert forall|k: int| 0 <= k < schema_exts().len() implies schema_exts()[k]@ != e by {
            if k == 0 {
                reveal_strlit("d.ts");
                assert("jpg"@.len() != "d.ts"@.len());
            } else if k == 1 {
                reveal_strlit("graphql");
                assert("jpg"@.len() != "graphql"@.len());
            } else if k == 2 {
                reveal_strlit("proto");
                assert("jpg"@.len() != "proto"@.len());
            } else if k == 3 {
                reveal_strlit("prisma");
                assert("jpg"@.len() != "prisma"@.len());
            }
        }
    }
    assert(!one_of(e, source_exts())) by {
        assert forall|k: int| 0 <= k < source_exts().len() implies source_exts()[k]@ != e by {
            if k == 0 {
                reveal_strlit("rs");
                assert("jpg"@.len() != "rs"@.len());
            } else if k == 1 {
                reveal_strlit("ts");
                assert("jpg"@.len() != "ts"@.len());
            } else if k == 2 {
                reveal_strlit("js");
                assert("jpg"@.len() != "js"@.len());
            } else if k == 3 {
                reveal_strlit("py");
                assert("jpg"@.len() != "py"@.len());
            } else if k == 4 {
                reveal_strlit("go");
                assert("jpg"@.len() != "go"@.len());
            } else if k == 5 {
                reveal_strlit("java");
                assert("jpg"@.len() != "java"@.len());
            } else if k == 6 {
                reveal_strlit("c");
                assert("jpg"@.len() != "c"@.len());
            } else if k == 7 {
                reveal_strlit("cpp");
                assert("jpg"@[0] != "cpp"@[0]);
            } else if k == 8 {
                reveal_strlit("h");
                assert("jpg"@.len() != "h"@.len());
            } else if k == 9 {
                reveal_strlit("tsx");
                assert("jpg"@[0] != "tsx"@[0]);
            } else if k == 10 {
                reveal_strlit("jsx");
                assert("jpg"@[1] != "jsx"@[1]);
            }
        }
    }
    assert(binary_exts()[1]@ == e);
}

proof fn lemma_extension_jpeg(e: Seq<char>, name: Seq<char>)
    requires
        e == "jpeg"@,
    ensures
        role_by_extension(e, name) == FileRole::Generated,
{
    reveal_strlit("jpeg");
    assert(!one_of(e, style_exts())) by {
        assert forall|k: int| 0 <= k < style_exts().len() implies style_exts()[k]@ != e by {
            if k == 0 {
                reveal_strlit("css");
                assert("jpeg"@.len() != "css"@.len());
            } else if k == 1 {
                reveal_strlit("scss");
                assert("jpeg"@[0] != "scss"@[0]);
            } else if k == 2 {
                reveal_strlit("less");
                assert("jpeg"@[0] != "less"@[0]);
            } else if k == 3 {
                reveal_strlit("styl");
                assert("jpeg"@[0] != "styl"@[0]);
            }
        }
    }
    assert(!one_of(e, data_exts())) by {
        assert forall|k: int| 0 <= k < data_exts().len() implies data_exts()[k]@ != e by {
            if k == 0 {
                reveal_strlit("json");
                assert("jpeg"@[1] != "json"@[1]);
            } else if k == 1 {
                reveal_strlit("csv");
                assert("jpeg"@.len() != "csv"@.len());
            } else if k == 2 {
                reveal_strlit("sql");
                assert("jpeg"@.len() != "sql"@.len());
            }
        }
    }
    assert(!one_of(e, doc_exts())) by {
        assert forall|k: int| 0 <= k < doc_exts().len() implies doc_exts()[k]@ != e by {
            if k == 0 {
                reveal_strlit("md");
                assert("jpeg"@.len() != "md"@.len());
            } else if k == 1 {
                reveal_strlit("mdx");
                assert("jpeg"@.len() != "mdx"@.len());
            } else if k == 2 {
                reveal_strlit("rst");
                assert("jpeg"@.len() != "rst"@.len());
            } else if k == 3 {
                reveal_strlit("txt");
                assert("jpeg"@.len() != "txt"@.len());
            } else if k == 4 {
                reveal_strlit("html");
                assert("jpeg"@[0] != "html"@[0]);
            } else if k == 5 {
                reveal_strlit("htm");
                assert("jpeg"@.len() != "htm"@.len());
            }
        }
    }
    assert(!one_of(e, config_exts())) by {
        assert forall|k: int| 0 <= k < config_exts().len() implies config_exts()[k]@ != e by {
            if k == 0 {
                reveal_strlit("toml");
                assert("jpeg"@[0] != "toml"@[0]);
            } else if k == 1 {
                reveal_strlit("yaml");
                assert("jpeg"@[0] != "yaml"@[0]);
            } else if k == 2 {
                reveal_strlit("yml");
                assert("jpeg"@.len() != "yml"@.len());
            } else if k == 3 {
                reveal_strlit("env");
                assert("jpeg"@.len() != "env"@.len());
            } else if k == 4 {
                reveal_strlit("conf");
                assert("jpeg"@[0] != "conf"@[0]);
            } else if k == 5 {
                reveal_strlit("properties");
                assert("jpeg"@.len() != "properties"@.len());
            } else if k == 6 {
                reveal_strlit("ini");
                assert("jpeg"@.len() != "ini"@.len());
            }
        }
    }
    assert(!one_of(e, schema_exts())) by {
        assert forall|k: int| 0 <= k < schema_exts().len() implies schema_exts()[k]@ != e by {
            if k == 0 {
                reveal_strlit("d.ts");
                assert("jpeg"@[0] != "d.ts"@[0]);
            } else if k == 1 {
                reveal_strlit("graphql");
                assert("jpeg"@.len() != "graphql"@.len());
            } else if k == 2 {
                reveal_strlit("proto");
                assert("jpeg"@.len() != "proto"@.len());
            } else if k == 3 {
                reveal_strlit("prisma");
                assert("jpeg"@.len() != "prisma"@.len());
            }
        }
    }
    assert(!one_of(e, source_exts())) by {
        assert forall|k: int| 0 <= k < source_exts().len() implies source_exts()[k]@ != e by {
            if k == 0 {
                reveal_strlit("rs");
                assert("jpeg"@.len() != "rs"@.len());
            } else if k == 1 {
                reveal_strlit("ts");
                assert("jpeg"@.len() != "ts"@.len());
            } else if k == 2 {
                reveal_strlit("js");
                assert("jpeg"@.len() != "js"@.len());
            } else if k == 3 {
                reveal_strlit("py");
                assert("jpeg"@.len() != "py"@.len());
            } else if k == 4 {
                reveal_strlit("go");
                assert("jpeg"@.len() != "go"@.len());
            } else if k == 5 {
                reveal_strlit("java");
                assert("jpeg"@[1] != "java"@[1]);
            } else if k == 6 {
                reveal_strlit("c");
                assert("jpeg"@.len() != "c"@.len());
            } else if k == 7 {
                reveal_strlit("cpp");
                assert("jpeg"@.len() != "cpp"@.len());
            } else if k == 8 {
                reveal_strlit("h");
                assert("jpeg"@.len() != "h"@.len());
            } else if k == 9 {
                reveal_strlit("tsx");
                assert("jpeg"@.len() != "tsx"@.len());
            } else if k == 10 {
                reveal_strlit("jsx");
                assert("jpeg"@.len() != "jsx"@.len());
            }
        }
    }
    assert(binary_exts()[2]@ == e);
}

proof fn lemma_extension_gif(e: Seq<char>, name: Seq<char>)
    requires
        e == "gif"@,
    ensures
        role_by_extension(e, name) == FileRole::Generated,
{
    reveal_strlit("gif");
    assert(!one_of(e, style_exts())) by {
        assert forall|k: int| 0 <= k < style_exts().len() implies style_exts()[k]@ != e by {
            if k == 0 {
                reveal_strlit("css");
                assert("gif"@[0] != "css"@[0]);
            } else if k == 1 {
                reveal_strlit("scss");
                assert("gif"@.len() != "scss"@.len());
            } else if k == 2 {
                reveal_strlit("less");
                assert("gif"@.len() != "less"@.len());
            } else if k == 3 {
                reveal_strlit("styl");
                assert("gif"@.len() != "styl"@.len());
            }
        }
    }
    assert(!one_of(e, data_exts())) by {
        assert forall|k: int| 0 <= k < data_exts().len() implies data_exts()[k]@ != e by {
            if k == 0 {
                reveal_strlit("json");
                assert("gif"@.len() != "json"@.len());
            } else if k == 1 {
                reveal_strlit("csv");
                assert("gif"@[0] != "csv"@[0]);
            } else if k == 2 {
                reveal_strlit("sql");
                assert("gif"@[0] != "sql"@[0]);
            }
        }
    }
    assert(!one_of(e, doc_exts())) by {
        assert forall|k: int| 0 <= k < doc_exts().len() implies doc_exts()[k]@ != e by {
            if k == 0 {
                reveal_strlit("md");
                assert("gif"@.len() != "md"@.len());
            } else if k == 1 {
                reveal_strlit("mdx");
                assert("gif"@[0] != "mdx"@[0]);
            } else if k == 2 {
                reveal_strlit("rst");
                assert("gif"@[0] != "rst"@[0]);
            } else if k == 3 {
                reveal_strlit("txt");
                assert("gif"@[0] != "txt"@[0]);
            } else if k == 4 {
                reveal_strlit("html");
                assert("gif"@.len() != "html"@.len());
            } else if k == 5 {
                reveal_strlit("htm");
                assert("gif"@[0] != "htm"@[0]);
            }
        }
    }
    assert(!one_of(e, config_exts())) by {
        assert forall|k: int| 0 <= k < config_exts().len() implies config_exts()[k]@ != e by {
            if k == 0 {
                reveal_strlit("toml");
                assert("gif"@.len() != "toml"@.len());
            } else if k == 1 {
                reveal_strlit("yaml");
                assert("gif"@.len() != "yaml"@.len());
            } else if k == 2 {
                reveal_strlit("yml");
                assert("gif"@[0] != "yml"@[0]);
            } else if k == 3 {
                reveal_strlit("env");
                assert("gif"@[0] != "env"@[0]);
            } else if k == 4 {
                reveal_strlit("conf");
                assert("gif"@.len() != "conf"@.len());
            } else if k == 5 {
                reveal_strlit("properties");
                assert("gif"@.len() != "properties"@.len());
            } else if k == 6 {
                reveal_strlit("ini");
                assert("gif"@[0] != "ini"@[0]);
            }
        }
    }
    assert(!one_of(e, schema_exts())) by {
        assert forall|k: int| 0 <= k < schema_exts().len() implies schema_exts()[k]@ != e by {
            if k == 0 {
                reveal_strlit("d.ts");
                assert("gif"@.len() != "d.ts"@.len());
            } else if k == 1 {
                reveal_strlit("graphql");
                assert("gif"@.len() != "graphql"@.len());
            } else if k == 2 {
                reveal_strlit("proto");
                assert("gif"@.len() != "proto"@.len());
            } else if k == 3 {
                reveal_strlit("prisma");
                assert("gif"@.len() != "prisma"@.len());
            }
        }
    }
    assert(!one_of(e, source_exts())) by {
        assert forall|k: int| 0 <= k < source_exts().len() implies source_exts()[k]@ != e by {
            if k == 0 {
                reveal_strlit("rs");
                assert("gif"@.len() != "rs"@.len());
            } else if k == 1 {
                reveal_strlit("ts");
                assert("gif"@.len() != "ts"@.len());
            } else if k == 2 {
                reveal_strlit("js");
                assert("gif"@.len() != "js"@.len());
            } else if k == 3 {
                reveal_strlit("py");
                assert("gif"@.len() != "py"@.len());
            } else if k == 4 {
                reveal_strlit("go");
                assert("gif"@.len() != "go"@.len());
            } else if k == 5 {
                reveal_strlit("java");
                assert("gif"@.len() != "java"@.len());
            } else if k == 6 {
                reveal_strlit("c");
                assert("gif"@.len() != "c"@.len());
            } else if k == 7 {
                reveal_strlit("cpp");
                assert("gif"@[0] != "cpp"@[0]);
            } else if k == 8 {
                reveal_strlit("h");
                assert("gif"@.len() != "h"@.len());
            } else if k == 9 {
                reveal_strlit("tsx");
                assert("gif"@[0] != "tsx"@[0]);
            } else if k == 10 {
                reveal_strlit("jsx");
                assert("gif"@[0] != "jsx"@[0]);
            }
        }
    }
    assert(binary_exts()[3]@ == e);
}

proof fn lemma_extension_mp4(e: Seq<char>, name: Seq<char>)
    requires
        e == "mp4"@,
    ensures
        role_by_extension(e, name) == FileRole::Generated,
{
    reveal_strlit("mp4");
    assert(!one_of(e, style_exts())) by {
        assert forall|k: int| 0 <= k < style_exts().len() implies style_exts()[k]@ != e by {
            if k == 0 {
                reveal_strlit("css");
                assert("mp4"@[0] != "css"@[0]);
            } else if k == 1 {
                reveal_strlit("scss");
                assert("mp4"@.len() != "scss"@.len());
            } else if k == 2 {
                reveal_strlit("less");
                assert("mp4"@.len() != "less"@.len());
            } else if k == 3 {
                reveal_strlit("styl");
                assert("mp4"@.len() != "styl"@.len());
            }
        }
    }
    assert(!one_of(e, data_exts())) by {
        assert forall|k: int| 0 <= k < data_exts().len() implies data_exts()[k]@ != e by {
            if k == 0 {
                reveal_strlit("json");
                assert("mp4"@.len() != "json"@.len());
            } else if k == 1 {
                reveal_strlit("csv");
                assert("mp4"@[0] != "csv"@[0]);
            } else if k == 2 {
                reveal_strlit("sql");
                assert("mp4"@[0] != "sql"@[0]);
            }
        }
    }
    assert(!one_of(e, doc_exts())) by {
        assert forall|k: int| 0 <= k < doc_exts().len() implies doc_exts()[k]@ != e by {
            if k == 0 {
                reveal_strlit("md");
                assert("mp4"@.len() != "md"@.len());
            } else if k == 1 {
                reveal_strlit("mdx");
                assert("mp4"@[1] != "mdx"@[1]);
            } else if k == 2 {
                reveal_strlit("rst");
                assert("mp4"@[0] != "rst"@[0]);
            } else if k == 3 {
                reveal_strlit("txt");
                assert("mp4"@[0] != "txt"@[0]);
            } else if k == 4 {
                reveal_strlit("html");
                assert("mp4"@.len() != "html"@.len());
            } else if k == 5 {
                reveal_strlit("htm");
                assert("mp4"@[0] != "htm"@[0]);
            }
        }
    }
    assert(!one_of(e, config_exts())) by {
        assert forall|k: int| 0 <= k < config_exts().len() implies config_exts()[k]@ != e by {
            if k == 0 {
                reveal_strlit("toml");
                assert("mp4"@.len() != "toml"@.len());
            } else if k == 1 {
                reveal_strlit("yaml");
                assert("mp4"@.len() != "yaml"@.len());
            } else if k == 2 {
                reveal_strlit("yml");
                assert("mp4"@[0] != "yml"@[0]);
            } else if k == 3 {
                reveal_strlit("env");
                assert("mp4"@[0] != "env"@[0]);
            } else if k == 4 {
                reveal_strlit("conf");
                assert("mp4"@.len() != "conf"@.len());
            } else if k == 5 {
                reveal_strlit("properties");
                assert("mp4"@.len() != "properties"@.len());
            } else if k == 6 {
                reveal_strlit("ini");
                assert("mp4"@[0] != "ini"@[0]);
            }
        }
    }
    assert(!one_of(e, schema_exts())) by {
        assert forall|k: int| 0 <= k < schema_exts().len() implies schema_exts()[k]@ != e by {
            if k == 0 {
                reveal_strlit("d.ts");
                assert("mp4"@.len() != "d.ts"@.len());
            } else if k == 1 {
                reveal_strlit("graphql");
                assert("mp4"@.len() != "graphql"@.len());
            } else if k == 2 {
                reveal_strlit("proto");
                assert("mp4"@.len() != "proto"@.len());
            } else if k == 3 {
                reveal_strlit("prisma");
                assert("mp4"@.len() != "prisma"@.len());
            }
        }
    }
    assert(!one_of(e, source_exts())) by {
        assert forall|k: int| 0 <= k < source_exts().len() implies source_exts()[k]@ != e by {
            if k == 0 {
                reveal_strlit("rs");
                assert("mp4"@.len() != "rs"@.len());
            } else if k == 1 {
                reveal_strlit("ts");
                assert("mp4"@.len() != "ts"@.len());
            } else if k == 2 {
                reveal_strlit("js");
                assert("mp4"@.len() != "js"@.len());
            } else if k == 3 {
                reveal_strlit("py");
                assert("mp4"@.len() != "py"@.len());
            } else if k == 4 {
                reveal_strlit("go");
                assert("mp4"@.len() != "go"@.len());
            } else if k == 5 {
                reveal_strlit("java");
                assert("mp4"@.len() != "java"@.len());
            } else if k == 6 {
                reveal_strlit("c");
                assert("mp4"@.len() != "c"@.len());
            } else if k == 7 {
                reveal_strlit("cpp");
                assert("mp4"@[0] != "cpp"@[0]);
            } else if k == 8 {
                reveal_strlit("h");
                assert("mp4"@.len() != "h"@.len());
            } else if k == 9 {
                reveal_strlit("tsx");
                assert("mp4"@[0] != "tsx"@[0]);
            } else if k == 10 {
                reveal_strlit("jsx");
                assert("mp4"@[0] != "jsx"@[0]);
            }
        }
    }
    assert(binary_exts()[4]@ == e);
}

proof fn lemma_extension_exe(e: Seq<char>, name: Seq<char>)
    requires
        e == "exe"@,
    ensures
        role_by_extension(e, name) == FileRole::Generated,
{
    reveal_strlit("exe");
    assert(!one_of(e, style_exts())) by {
        assert forall|k: int| 0 <= k < style_exts().len() implies style_exts()[k]@ != e by {
            if k == 0 {
                reveal_strlit("css");
                assert("exe"@[0] != "css"@[0]);
            } else if k == 1 {
                reveal_strlit("scss");
                assert("exe"@.len() != "scss"@.len());
            } else if k == 2 {
                reveal_strlit("less");
                assert("exe"@.len() != "less"@.len());
            } else if k == 3 {
                reveal_strlit("styl");
                assert("exe"@.len() != "styl"@.len());
            }
        }
    }
    assert(!one_of(e, data_exts())) by {
        assert forall|k: int| 0 <= k < data_exts().len() implies data_exts()[k]@ != e by {
            if k == 0 {
                reveal_strlit("json");
                assert("exe"@.len() != "json"@.len());
            } else if k == 1 {
                reveal_strlit("csv");
                assert("exe"@[0] != "csv"@[0]);
            } else if k == 2 {
                reveal_strlit("sql");
                assert("exe"@[0] != "sql"@[0]);
            }
        }
    }
    assert(!one_of(e, doc_exts())) by {
        assert forall|k: int| 0 <= k < doc_exts().len() implies doc_exts()[k]@ != e by {
            if k == 0 {
                reveal_strlit("md");
                assert("exe"@.len() != "md"@.len());
            } else if k == 1 {
                reveal_strlit("mdx");
                assert("exe"@[0] != "mdx"@[0]);
            } else if k == 2 {
                reveal_strlit("rst");
                assert("exe"@[0] != "rst"@[0]);
            } else if k == 3 {
                reveal_strlit("txt");
                assert("exe"@[0] != "txt"@[0]);
            } else if k == 4 {
                reveal_strlit("html");
                assert("exe"@.len() != "html"@.len());
            } else if k == 5 {
                reveal_strlit("htm");
                assert("exe"@[0] != "htm"@[0]);
            }
        }
    }
    assert(!one_of(e, config_exts())) by {
        assert forall|k: int| 0 <= k < config_exts().len() implies config_exts()[k]@ != e by {
            if k == 0 {
                reveal_strlit("toml");
                assert("exe"@.len() != "toml"@.len());
            } else if k == 1 {
                reveal_strlit("yaml");
                assert("exe"@.len() != "yaml"@.len());
            } else if k == 2 {
                reveal_strlit("yml");
                assert("exe"@[0] != "yml"@[0]);
            } else if k == 3 {
                reveal_strlit("env");
                assert("exe"@[1] != "env"@[1]);
            } else if k == 4 {
                reveal_strlit("conf");
                assert("exe"@.len() != "conf"@.len());
            } else if k == 5 {
                reveal_strlit("properties");
                assert("exe"@.len() != "properties"@.len());
            } else if k == 6 {
                reveal_strlit("ini");
                assert("exe"@[0] != "ini"@[0]);
            }
        }
    }
    assert(!one_of(e, schema_exts())) by {
        assert forall|k: int| 0 <= k < schema_exts().len() implies schema_exts()[k]@ != e by {
            if k == 0 {
                reveal_strlit("d.ts");
                assert("exe"@.len() != "d.ts"@.len());
            } else if k == 1 {
                reveal_strlit("graphql");
                assert("exe"@.len() != "graphql"@.len());
            } else if k == 2 {
                reveal_strlit("proto");
                assert("exe"@.len() != "proto"@.len());
            } else if k == 3 {
                reveal_strlit("prisma");
                assert("exe"@.len() != "prisma"@.len());
            }
        }
    }
    assert(!one_of(e, source_exts())) by {
        assert forall|k: int| 0 <= k < source_exts().len() implies source_exts()[k]@ != e by {
            if k == 0 {
                reveal_strlit("rs");
                assert("exe"@.len() != "rs"@.len());
            } else if k == 1 {
                reveal_strlit("ts");
                assert("exe"@.len() != "ts"@.len());
            } else if k == 2 {
                reveal_strlit("js");
                assert("exe"@.len() != "js"@.len());
            } else if k == 3 {
                reveal_strlit("py");
                assert("exe"@.len() != "py"@.len());
            } else if k == 4 {
                reveal_strlit("go");
                assert("exe"@.len() != "go"@.len());
            } else if k == 5 {
                reveal_strlit("java");
                assert("exe"@.len() != "java"@.len());
            } else if k == 6 {
                reveal_strlit("c");
                assert("exe"@.len() != "c"@.len());
            } else if k == 7 {
                reveal_strlit("cpp");
                assert("exe"@[0] != "cpp"@[0]);
            } else if k == 8 {
                reveal_strlit("h");
                assert("exe"@.len() != "h"@.len());
            } else if k == 9 {
                reveal_strlit("tsx");
                assert("exe"@[0] != "tsx"@[0]);
            } else if k == 10 {
                reveal_strlit("jsx");
                assert("exe"@[0] != "jsx"@[0]);
            }
        }
    }
    assert(binary_exts()[5]@ == e);
}

proof fn lemma_extension_dll(e: Seq<char>, name: Seq<char>)
    requires
        e == "dll"@,
    ensures
        role_by_extension(e, name) == FileRole::Generated,
{
    reveal_strlit("dll");
    assert(!one_of(e, style_exts())) by {
        assert forall|k: int| 0 <= k < style_exts().len() implies style_exts()[k]@ != e by {
            if k == 0 {
                reveal_strlit("css");
                assert("dll"@[0] != "css"@[0]);
            } else if k == 1 {
                reveal_strlit("scss");
                assert("dll"@.len() != "scss"@.len());
            } else if k == 2 {
                reveal_strlit("less");
                assert("dll"@.len() != "less"@.len());
            } else if k == 3 {
                reveal_strlit("styl");
                assert("dll"@.len() != "styl"@.len());
            }
        }
    }
    assert(!one_of(e, data_exts())) by {
        assert forall|k: int| 0 <= k < data_exts().len() implies data_exts()[k]@ != e by {
            if k == 0 {
                reveal_strlit("json");
                assert("dll"@.len() != "json"@.len());
            } else if k == 1 {
                reveal_strlit("csv");
                assert("dll"@[0] != "csv"@[0]);
            } else if k == 2 {
                reveal_strlit("sql");
                assert("dll"@[0] != "sql"@[0]);
            }
        }
    }
    assert(!one_of(e, doc_exts())) by {
        assert forall|k: int| 0 <= k < doc_exts().len() implies doc_exts()[k]@ != e by {
            if k == 0 {
                reveal_strlit("md");
                assert("dll"@.len() != "md"@.len());
            } else if k == 1 {
                reveal_strlit("mdx");
                assert("dll"@[0] != "mdx"@[0]);
            } else if k == 2 {
                reveal_strlit("rst");
                assert("dll"@[0] != "rst"@[0]);
            } else if k == 3 {
                reveal_strlit("txt");
                assert("dll"@[0] != "txt"@[0]);
            } else if k == 4 {
                reveal_strlit("html");
                assert("dll"@.len() != "html"@.len());
            } else if k == 5 {
                reveal_strlit("htm");
                assert("dll"@[0] != "htm"@[0]);
            }
        }
    }
    assert(!one_of(e, config_exts())) by {
        assert forall|k: int| 0 <= k < config_exts().len() implies config_exts()[k]@ != e by {
            if k == 0 {
                reveal_strlit("toml");
                assert("dll"@.len() != "toml"@.len());
            } else if k == 1 {
                reveal_strlit("yaml");
                assert("dll"@.len() != "yaml"@.len());
            } else if k == 2 {
                reveal_strlit("yml");
                assert("dll"@[0] != "yml"@[0]);
            } else if k == 3 {
                reveal_strlit("env");
                assert("dll"@[0] != "env"@[0]);
            } else if k == 4 {
                reveal_strlit("conf");
                assert("dll"@.len() != "conf"@.len());
            } else if k == 5 {
                reveal_strlit("properties");
                assert("dll"@.len() != "properties"@.len());
            } else if k == 6 {
                reveal_strlit("ini");
                assert("dll"@[0] != "ini"@[0]);
            }
        }
    }
    assert(!one_of(e, schema_exts())) by {
        assert forall|k: int| 0 <= k < schema_exts().len() implies schema_exts()[k]@ != e by {
            if k == 0 {
                reveal_strlit("d.ts");
                assert("dll"@.len() != "d.ts"@.len());
            } else if k == 1 {
                reveal_strlit("graphql");
                assert("dll"@.len() != "graphql"@.len());
            } else if k == 2 {
                reveal_strlit("proto");
                assert("dll"@.len() != "proto"@.len());
            } else if k == 3 {
                reveal_strlit("prisma");
                assert("dll"@.len() != "prisma"@.len());
            }
        }
    }
    assert(!one_of(e, source_exts())) by {
        assert forall|k: int| 0 <= k < source_exts().len() implies source_exts()[k]@ != e by {
            if k == 0 {
                reveal_strlit("rs");
                assert("dll"@.len() != "rs"@.len());
            } else if k == 1 {
                reveal_strlit("ts");
                assert("dll"@.len() != "ts"@.len());
            } else if k == 2 {
                reveal_strlit("js");
                assert("dll"@.len() != "js"@.len());
            } else if k == 3 {
                reveal_strlit("py");
                assert("dll"@.len() != "py"@.len());
            } else if k == 4 {
                reveal_strlit("go");
                assert("dll"@.len() != "go"@.len());
            } else if k == 5 {
                reveal_strlit("java");
                assert("dll"@.len() != "java"@.len());
            } else if k == 6 {
                reveal_strlit("c");
                assert("dll"@.len() != "c"@.len());
            } else if k == 7 {
                reveal_strlit("cpp");
                assert("dll"@[0] != "cpp"@[0]);
            } else if k == 8 {
                reveal_strlit("h");
                assert("dll"@.len() != "h"@.len());
            } else if k == 9 {
                reveal_strlit("tsx");
                assert("dll"@[0] != "tsx"@[0]);
            } else if k == 10 {
                reveal_strlit("jsx");
                assert("dll"@[0] != "jsx"@[0]);
            }
        }
    }
    assert(binary_exts()[6]@ == e);
}

proof fn lemma_extension_so(e: Seq<char>, name: Seq<char>)
    requires
        e == "so"@,
    ensures
        role_by_extension(e, name) == FileRole::Generated,
{
    reveal_strlit("so");
    assert(!one_of(e, style_exts())) by {
        assert forall|k: int| 0 <= k < style_exts().len() implies style_exts()[k]@ != e by {
            if k == 0 {
                reveal_strlit("css");
                assert("so"@.len() != "css"@.len());
            } else if k == 1 {
                reveal_strlit("scss");
                assert("so"@.len() != "scss"@.len());
            } else if k == 2 {
                reveal_strlit("less");
                assert("so"@.len() != "less"@.len());
            } else if k == 3 {
                reveal_strlit("styl");
                assert("so"@.len() != "styl"@.len());
            }
        }
    }
    assert(!one_of(e, data_exts())) by {
        assert forall|k: int| 0 <= k < data_exts().len() implies data_exts()[k]@ != e by {
            if k == 0 {
                reveal_strlit("json");
                assert("so"@.len() != "json"@.len());
            } else if k == 1 {
                reveal_strlit("csv");
                assert("so"@.len() != "csv"@.len());
            } else if k == 2 {
                reveal_strlit("sql");
                assert("so"@.len() != "sql"@.len());
            }
        }
    }
    assert(!one_of(e, doc_exts())) by {
        assert forall|k: int| 0 <= k < doc_exts().len() implies doc_exts()[k]@ != e by {
            if k == 0 {
                reveal_strlit("md");
                assert("so"@[0] != "md"@[0]);
            } else if k == 1 {
                reveal_strlit("mdx");
                assert("so"@.len() != "mdx"@.len());
            } else if k == 2 {
                reveal_strlit("rst");
                assert("so"@.len() != "rst"@.len());
            } else if k == 3 {
                reveal_strlit("txt");
                assert("so"@.len() != "txt"@.len());
            } else if k == 4 {
                reveal_strlit("html");
                assert("so"@.len() != "html"@.len());
            } else if k == 5 {
                reveal_strlit("htm");
                assert("so"@.len() != "htm"@.len());
            }
        }
    }
    assert(!one_of(e, config_exts())) by {
        assert forall|k: int| 0 <= k < config_exts().len() implies config_exts()[k]@ != e by {
            if k == 0 {
                reveal_strlit("toml");
                assert("so"@.len() != "toml"@.len());
            } else if k == 1 {
                reveal_strlit("yaml");
                assert("so"@.len() != "yaml"@.len());
            } else if k == 2 {
                reveal_strlit("yml");
                assert("so"@.len() != "yml"@.len());
            } else if k == 3 {
                reveal_strlit("env");
                assert("so"@.len() != "env"@.len());
            } else if k == 4 {
                reveal_strlit("conf");
                assert("so"@.len() != "conf"@.len());
            } else if k == 5 {
                reveal_strlit("properties");
                assert("so"@.len() != "properties"@.len());
            } else if k == 6 {
                reveal_strlit("ini");
                assert("so"@.len() != "ini"@.len());
            }
        }
    }
    assert(!one_of(e, schema_exts())) by {
        assert forall|k: int| 0 <= k < schema_exts().len() implies schema_exts()[k]@ != e by {
            if k == 0 {
                reveal_strlit("d.ts");
                assert("so"@.len() != "d.ts"@.len());
            } else if k == 1 {
                reveal_strlit("graphql");
                assert("so"@.len() != "graphql"@.len());
            } else if k == 2 {
                reveal_strlit("proto");
                assert("so"@.len() != "proto"@.len());
            } else if k == 3 {
                reveal_strlit("prisma");
                assert("so"@.len() != "prisma"@.len());
            }
        }
    }
    assert(!one_of(e, source_exts())) by {
        assert forall|k: int| 0 <= k < source_exts().len() implies source_exts()[k]@ != e by {
            if k == 0 {
                reveal_strlit("rs");
                assert("so"@[0] != "rs"@[0]);
            } else if k == 1 {
                reveal_strlit("ts");
                assert("so"@[0] != "ts"@[0]);
            } else if k == 2 {
                reveal_strlit("js");
                assert("so"@[0] != "js"@[0]);
            } else if k == 3 {
                reveal_strlit("py");
                assert("so"@[0] != "py"@[0]);
            } else if k == 4 {
                reveal_strlit("go");
                assert("so"@[0] != "go"@[0]);
            } else if k == 5 {
                reveal_strlit("java");
                assert("so"@.len() != "java"@.len());
            } else if k == 6 {
                reveal_strlit("c");
                assert("so"@.len() != "c"@.len());
            } else if k == 7 {
                reveal_strlit("cpp");
                assert("so"@.len() != "cpp"@.len());
            } else if k == 8 {
                reveal_strlit("h");
                assert("so"@.len() != "h"@.len());
            } else if k == 9 {
                reveal_strlit("tsx");
                assert("so"@.len() != "tsx"@.len());
            } else if k == 10 {
                reveal_strlit("jsx");
                assert("so"@.len() != "jsx"@.len());
            }
        }
    }
    assert(binary_exts()[7]@ == e);
}

proof fn lemma_extension_woff(e: Seq<char>, name: Seq<char>)
    requires
        e == "woff"@,
    ensures
        role_by_extension(e, name) == FileRole::Generated,
{
    reveal_strlit("woff");
    assert(!one_of(e, style_exts())) by {
        assert forall|k: int| 0 <= k < style_exts().len() implies style_exts()[k]@ != e by {
            if k == 0 {
                reveal_strlit("css");
                assert("woff"@.len() != "css"@.len());
            } else if k == 1 {
                reveal_strlit("scss");
                assert("woff"@[0] != "scss"@[0]);
            } else if k == 2 {
                reveal_strlit("less");
                assert("woff"@[0] != "less"@[0]);
            } else if k == 3 {
                reveal_strlit("styl");
                assert("woff"@[0] != "styl"@[0]);
            }
        }
    }
    assert(!one_of(e, data_exts())) by {
        assert forall|k: int| 0 <= k < data_exts().len() implies data_exts()[k]@ != e by {
            if k == 0 {
                reveal_strlit("json");
                assert("woff"@[0] != "json"@[0]);
            } else if k == 1 {
                reveal_strlit("csv");
                assert("woff"@.len() != "csv"@.len());
            } else if k == 2 {
                reveal_strlit("sql");
                assert("woff"@.len() != "sql"@.len());
            }
        }
    }
    assert(!one_of(e, doc_exts())) by {
        assert forall|k: int| 0 <= k < doc_exts().len() implies doc_exts()[k]@ != e by {
            if k == 0 {
                reveal_strlit("md");
                assert("woff"@.len() != "md"@.len());
            } else if k == 1 {
                reveal_strlit("mdx");
                assert("woff"@.len() != "mdx"@.len());
            } else if k == 2 {
                reveal_strlit("rst");
                assert("woff"@.len() != "rst"@.len());
            } else if k == 3 {
                reveal_strlit("txt");
                assert("woff"@.len() != "txt"@.len());
            } else if k == 4 {
                reveal_strlit("html");
                assert("woff"@[0] != "html"@[0]);
            } else if k == 5 {
                reveal_strlit("htm");
                assert("woff"@.len() != "htm"@.len());
            }
        }
    }
    assert(!one_of(e, config_exts())) by {
        assert forall|k: int| 0 <= k < config_exts().len() implies config_exts()[k]@ != e by {
            if k == 0 {
                reveal_strlit("toml");
                assert("woff"@[0] != "toml"@[0]);
            } else if k == 1 {
                reveal_strlit("yaml");
                assert("woff"@[0] != "yaml"@[0]);
            } else if k == 2 {
                reveal_strlit("yml");
                assert("woff"@.len() != "yml"@.len());
            } else if k == 3 {
                reveal_strlit("env");
                assert("woff"@.len() != "env"@.len());
            } else if k == 4 {
                reveal_strlit("conf");
                assert("woff"@[0] != "conf"@[0]);
            } else if k == 5 {
                reveal_strlit("properties");
                assert("woff"@.len() != "properties"@.len());
            } else if k == 6 {
                reveal_strlit("ini");
                assert("woff"@.len() != "ini"@.len());
            }
        }
    }
    assert(!one_of(e, schema_exts())) by {
        assert forall|k: int| 0 <= k < schema_exts().len() implies schema_exts()[k]@ != e by {
            if k == 0 {
                reveal_strlit("d.ts");
                assert("woff"@[0] != "d.ts"@[0]);
            } else if k == 1 {
                reveal_strlit("graphql");
                assert("woff"@.len() != "graphql"@.len());
            } else if k == 2 {
                reveal_strlit("proto");
                assert("woff"@.len() != "proto"@.len());
            } else if k == 3 {
                reveal_strlit("prisma");
                assert("woff"@.len() != "prisma"@.len());
            }
        }
    }
    assert(!one_of(e, source_exts())) by {
        assert forall|k: int| 0 <= k < source_exts().len() implies source_exts()[k]@ != e by {
            if k == 0 {
                reveal_strlit("rs");
                assert("woff"@.len() != "rs"@.len());
            } else if k == 1 {
                reveal_strlit("ts");
                assert("woff"@.len() != "ts"@.len());
            } else if k == 2 {
                reveal_strlit("js");
                assert("woff"@.len() != "js"@.len());
            } else if k == 3 {
                reveal_strlit("py");
                assert("woff"@.len() != "py"@.len());
            } else if k == 4 {
                reveal_strlit("go");
                assert("woff"@.len() != "go"@.len());
            } else if k == 5 {
                reveal_strlit("java");
                assert("woff"@[0] != "java"@[0]);
            } else if k == 6 {
                reveal_strlit("c");
                assert("woff"@.len() != "c"@.len());
            } else if k == 7 {
                reveal_strlit("cpp");
                assert("woff"@.len() != "cpp"@.len());
            } else if k == 8 {
                reveal_strlit("h");
                assert("woff"@.len() != "h"@.len());
            } else if k == 9 {
                reveal_strlit("tsx");
                assert("woff"@.len() != "tsx"@.len());
            } else if k == 10 {
                reveal_strlit("jsx");
                assert("woff"@.len() != "jsx"@.len());
            }
        }
    }
    assert(binary_exts()[8]@ == e);
}

proof fn lemma_extension_woff2(e: Seq<char>, name: Seq<char>)
    requires
        e == "woff2"@,
    ensures
        role_by_extension(e, name) == FileRole::Generated,
{
    reveal_strlit("woff2");
    assert(!one_of(e, style_exts())) by {
        assert forall|k: int| 0 <= k < style_exts().len() implies style_exts()[k]@ != e by {
            if k == 0 {
                reveal_strlit("css");
                assert("woff2"@.len() != "css"@.len());
            } else if k == 1 {
                reveal_strlit("scss");
                assert("woff2"@.len() != "scss"@.len());
            } else if k == 2 {
                reveal_strlit("less");
                assert("woff2"@.len() != "less"@.len());
            } else if k == 3 {
                reveal_strlit("styl");
                assert("woff2"@.len() != "styl"@.len());
            }
        }
    }
    assert(!one_of(e, data_exts())) by {
        assert forall|k: int| 0 <= k < data_exts().len() implies data_exts()[k]@ != e by {
            if k == 0 {
                reveal_strlit("json");
                assert("woff2"@.len() != "json"@.len());
            } else if k == 1 {
                reveal_strlit("csv");
                assert("woff2"@.len() != "csv"@.len());
            } else if k == 2 {
                reveal_strlit("sql");
                assert("woff2"@.len() != "sql"@.len());
            }
        }
    }
    assert(!one_of(e, doc_exts())) by {
        assert forall|k: int| 0 <= k < doc_exts().len() implies doc_exts()[k]@ != e by {
            if k == 0 {
                reveal_strlit("md");
                assert("woff2"@.len() != "md"@.len());
            } else if k == 1 {
                reveal_strlit("mdx");
                assert("woff2"@.len() != "mdx"@.len());
            } else if k == 2 {
                reveal_strlit("rst");
                assert("woff2"@.len() != "rst"@.len());
            } else if k == 3 {
                reveal_strlit("txt");
                assert("woff2"@.len() != "txt"@.len());
            } else if k == 4 {
                reveal_strlit("html");
                assert("woff2"@.len() != "html"@.len());
            } else if k == 5 {
                reveal_strlit("htm");
                assert("woff2"@.len() != "htm"@.len());
            }
        }
    }
    assert(!one_of(e, config_exts())) by {
        assert forall|k: int| 0 <= k < config_exts().len() implies config_exts()[k]@ != e by {
            if k == 0 {
                reveal_strlit("toml");
                assert("woff2"@.len() != "toml"@.len());
            } else if k == 1 {
                reveal_strlit("yaml");
                assert("woff2"@.len() != "yaml"@.len());
            } else if k == 2 {
                reveal_strlit("yml");
                assert("woff2"@.len() != "yml"@.len());
            } else if k == 3 {
                reveal_strlit("env");
                assert("woff2"@.len() != "env"@.len());
            } else if k == 4 {
                reveal_strlit("conf");
                assert("woff2"@.len() != "conf"@.len());
            } else if k == 5 {
                reveal_strlit("properties");
                assert("woff2"@.len() != "properties"@.len());
            } else if k == 6 {
                reveal_strlit("ini");
                assert("woff2"@.len() != "ini"@.len());
            }
        }
    }
    assert(!one_of(e, schema_exts())) by {
        assert forall|k: int| 0 <= k < schema_exts().len() implies schema_exts()[k]@ != e by {
            if k == 0 {
                reveal_strlit("d.ts");
                assert("woff2"@.len() != "d.ts"@.len());
            } else if k == 1 {
                reveal_strlit("graphql");
                assert("woff2"@.len() != "graphql"@.len());
            } else if k == 2 {
                reveal_strlit("proto");
                assert("woff2"@[0] != "proto"@[0]);
            } else if k == 3 {
                reveal_strlit("prisma");
                assert("woff2"@.len() != "prisma"@.len());
            }
        }
    }
    assert(!one_of(e, source_exts())) by {
        assert forall|k: int| 0 <= k < source_exts().len() implies source_exts()[k]@ != e by {
            if k == 0 {
                reveal_strlit("rs");
                assert("woff2"@.len() != "rs"@.len());
            } else if k == 1 {
                reveal_strlit("ts");
                assert("woff2"@.len() != "ts"@.len());
            } else if k == 2 {
                reveal_strlit("js");
                assert("woff2"@.len() != "js"@.len());
            } else if k == 3 {
                reveal_strlit("py");
                assert("woff2"@.len() != "py"@.len());
            } else if k == 4 {
                reveal_strlit("go");
                assert("woff2"@.len() != "go"@.len());
            } else if k == 5 {
                reveal_strlit("java");
                assert("woff2"@.len() != "java"@.len());
            } else if k == 6 {
                reveal_strlit("c");
                assert("woff2"@.len() != "c"@.len());
            } else if k == 7 {
                reveal_strlit("cpp");
                assert("woff2"@.len() != "cpp"@.len());
            } else if k == 8 {
                reveal_strlit("h");
                assert("woff2"@.len() != "h"@.len());
            } else if k == 9 {
                reveal_strlit("tsx");
                assert("woff2"@.len() != "tsx"@.len());
            } else if k == 10 {
                reveal_strlit("jsx");
                assert("woff2"@.len() != "jsx"@.len());
            }
        }
    }
    assert(binary_exts()[9]@ == e);
}

proof fn lemma_extension_pdf(e: Seq<char>, name: Seq<char>)
    requires
        e == "pdf"@,
    ensures
        role_by_extension(e, name) == FileRole::Generated,
{
    reveal_strlit("pdf");
    assert(!one_of(e, style_exts())) by {
        assert forall|k: int| 0 <= k < style_exts().len() implies style_exts()[k]@ != e by {
            if k == 0 {
                reveal_strlit("css");
                assert("pdf"@[0] != "css"@[0]);
            } else if k == 1 {
                reveal_strlit("scss");
                assert("pdf"@.len() != "scss"@.len());
            } else if k == 2 {
                reveal_strlit("less");
                assert("pdf"@.len() != "less"@.len());
            } else if k == 3 {
                reveal_strlit("styl");
                assert("pdf"@.len() != "styl"@.len());
            }
        }
    }
    assert(!one_of(e, data_exts())) by {
        assert forall|k: int| 0 <= k < data_exts().len() implies data_exts()[k]@ != e by {
            if k == 0 {
                reveal_strlit("json");
                assert("pdf"@.len() != "json"@.len());
            } else if k == 1 {
                reveal_strlit("csv");
                assert("pdf"@[0] != "csv"@[0]);
            } else if k == 2 {
                reveal_strlit("sql");
                assert("pdf"@[0] != "sql"@[0]);
            }
        }
    }
    assert(!one_of(e, doc_exts())) by {
        assert forall|k: int| 0 <= k < doc_exts().len() implies doc_exts()[k]@ != e by {
            if k == 0 {
                reveal_strlit("md");
                assert("pdf"@.len() != "md"@.len());
            } else if k == 1 {
                reveal_strlit("mdx");
                assert("pdf"@[0] != "mdx"@[0]);
            } else if k == 2 {
                reveal_strlit("rst");
                assert("pdf"@[0] != "rst"@[0]);
            } else if k == 3 {
                reveal_strlit("txt");
                assert("pdf"@[0] != "txt"@[0]);
            } else if k == 4 {
                reveal_strlit("html");
                assert("pdf"@.len() != "html"@.len());
            } else if k == 5 {
                reveal_strlit("htm");
                assert("pdf"@[0] != "htm"@[0]);
            }
        }
    }
    assert(!one_of(e, config_exts())) by {
        assert forall|k: int| 0 <= k < config_exts().len() implies config_exts()[k]@ != e by {
            if k == 0 {
                reveal_strlit("toml");
                assert("pdf"@.len() != "toml"@.len());
            } else if k == 1 {
                reveal_strlit("yaml");
                assert("pdf"@.len() != "yaml"@.len());
            } else if k == 2 {
                reveal_strlit("yml");
                assert("pdf"@[0] != "yml"@[0]);
            } else if k == 3 {
                reveal_strlit("env");
                assert("pdf"@[0] != "env"@[0]);
            } else if k == 4 {
                reveal_strlit("conf");
                assert("pdf"@.len() != "conf"@.len());
            } else if k == 5 {
                reveal_strlit("properties");
                assert("pdf"@.len() != "properties"@.len());
            } else if k == 6 {
                reveal_strlit("ini");
                assert("pdf"@[0] != "ini"@[0]);
            }
        }
    }
    assert(!one_of(e, schema_exts())) by {
        assert forall|k: int| 0 <= k < schema_exts().len() implies schema_exts()[k]@ != e by {
            if k == 0 {
                reveal_strlit("d.ts");
                assert("pdf"@.len() != "d.ts"@.len());
            } else if k == 1 {
                reveal_strlit("graphql");
                assert("pdf"@.len() != "graphql"@.len());
            } else if k == 2 {
                reveal_strlit("proto");
                assert("pdf"@.len() != "proto"@.len());
            } else if k == 3 {
                reveal_strlit("prisma");
                assert("pdf"@.len() != "prisma"@.len());
            }
        }
    }
    assert(!one_of(e, source_exts())) by {
        assert forall|k: int| 0 <= k < source_exts().len() implies source_exts()[k]@ != e by {
            if k == 0 {
                reveal_strlit("rs");
                assert("pdf"@.len() != "rs"@.len());
            } else if k == 1 {
                reveal_strlit("ts");
                assert("pdf"@.len() != "ts"@.len());
            } else if k == 2 {
                reveal_strlit("js");
                assert("pdf"@.len() != "js"@.len());
            } else if k == 3 {
                reveal_strlit("py");
                assert("pdf"@.len() != "py"@.len());
            } else if k == 4 {
                reveal_strlit("go");
                assert("pdf"@.len() != "go"@.len());
            } else if k == 5 {
                reveal_strlit("java");
                assert("pdf"@.len() != "java"@.len());
            } else if k == 6 {
                reveal_strlit("c");
                assert("pdf"@.len() != "c"@.len());
            } else if k == 7 {
                reveal_strlit("cpp");
                assert("pdf"@[0] != "cpp"@[0]);
            } else if k == 8 {
                reveal_strlit("h");
                assert("pdf"@.len() != "h"@.len());
            } else if k == 9 {
                reveal_strlit("tsx");
                assert("pdf"@[0] != "tsx"@[0]);
            } else if k == 10 {
                reveal_strlit("jsx");
                assert("pdf"@[0] != "jsx"@[0]);
            }
        }
    }
    assert(binary_exts()[10]@ == e);
}

proof fn lemma_extension_pb_go(e: Seq<char>, name: Seq<char>)
    requires
        e == "pb.go"@,
    ensures
        role_by_extension(e, name) == FileRole::Generated,
{
    reveal_strlit("pb.go");
    assert(!one_of(e, style_exts())) by {
        assert forall|k: int| 0 <= k < style_exts().len() implies style_exts()[k]@ != e by {
            if k == 0 {
                reveal_strlit("css");
                assert("pb.go"@.len() != "css"@.len());
            } else if k == 1 {
                reveal_strlit("scss");
                assert("pb.go"@.len() != "scss"@.len());
            } else if k == 2 {
                reveal_strlit("less");
                assert("pb.go"@.len() != "less"@.len());
            } else if k == 3 {
                reveal_strlit("styl");
                assert("pb.go"@.len() != "styl"@.len());
            }
        }
    }
    assert(!one_of(e, data_exts())) by {
        assert forall|k: int| 0 <= k < data_exts().len() implies data_exts()[k]@ != e by {
            if k == 0 {
                reveal_strlit("json");
                assert("pb.go"@.len() != "json"@.len());
            } else if k == 1 {
                reveal_strlit("csv");
                assert("pb.go"@.len() != "csv"@.len());
            } else if k == 2 {
                reveal_strlit("sql");
                assert("pb.go"@.len() != "sql"@.len());
            }
        }
    }
    assert(!one_of(e, doc_exts())) by {
        assert forall|k: int| 0 <= k < doc_exts().len() implies doc_exts()[k]@ != e by {
            if k == 0 {
                reveal_strlit("md");
                assert("pb.go"@.len() != "md"@.len());
            } else if k == 1 {
                reveal_strlit("mdx");
                assert("pb.go"@.len() != "mdx"@.len());
            } else if k == 2 {
                reveal_strlit("rst");
                assert("pb.go"@.len() != "rst"@.len());
            } else if k == 3 {
                reveal_strlit("txt");
                assert("pb.go"@.len() != "txt"@.len());
            } else if k == 4 {
                reveal_strlit("html");
                assert("pb.go"@.len() != "html"@.len());
            } else if k == 5 {
                reveal_strlit("htm");
                assert("pb.go"@.len() != "htm"@.len());
            }
        }
    }
    assert(!one_of(e, config_exts())) by {
        assert forall|k: int| 0 <= k < config_exts().len() implies config_exts()[k]@ != e by {
            if k == 0 {
                reveal_strlit("toml");
                assert("pb.go"@.len() != "toml"@.len());
            } else if k == 1 {
                reveal_strlit("yaml");
                assert("pb.go"@.len() != "yaml"@.len());
            } else if k == 2 {
                reveal_strlit("yml");
                assert("pb.go"@.len() != "yml"@.len());
            } else if k == 3 {
                reveal_strlit("env");
                assert("pb.go"@.len() != "env"@.len());
            } else if k == 4 {
                reveal_strlit("conf");
                assert("pb.go"@.len() != "conf"@.len());
            } else if k == 5 {
                reveal_strlit("properties");
                assert("pb.go"@.len() != "properties"@.len());
            } else if k == 6 {
                reveal_strlit("ini");
                assert("pb.go"@.len() != "ini"@.len());
            }
        }
    }
    assert(!one_of(e, schema_exts())) by {
        assert forall|k: int| 0 <= k < schema_exts().len() implies schema_exts()[k]@ != e by {
            if k == 0 {
                reveal_strlit("d.ts");
                assert("pb.go"@.len() != "d.ts"@.len());
            } else if k == 1 {
                reveal_strlit("graphql");
                assert("pb.go"@.len() != "graphql"@.len());
            } else if k == 2 {
                reveal_strlit("proto");
                assert("pb.go"@[1] != "proto"@[1]);
            } else if k == 3 {
                reveal_strlit("prisma");
                assert("pb.go"@.len() != "prisma"@.len());
            }
        }
    }
    assert(!one_of(e, source_exts())) by {
        assert forall|k: int| 0 <= k < source_exts().len() implies source_exts()[k]@ != e by {
            if k == 0 {
                reveal_strlit("rs");
                assert("pb.go"@.len() != "rs"@.len());
            } else if k == 1 {
                reveal_strlit("ts");
                assert("pb.go"@.len() != "ts"@.len());
            } else if k == 2 {
                reveal_strlit("js");
                assert("pb.go"@.len() != "js"@.len());
            } else if k == 3 {
                reveal_strlit("py");
                assert("pb.go"@.len() != "py"@.len());
            } else if k == 4 {
                reveal_strlit("go");
                assert("pb.go"@.len() != "go"@.len());
            } else if k == 5 {
                reveal_strlit("java");
                assert("pb.go"@.len() != "java"@.len());
            } else if k == 6 {
                reveal_strlit("c");
                assert("pb.go"@.len() != "c"@.len());
            } else if k == 7 {
                reveal_strlit("cpp");
                assert("pb.go"@.len() != "cpp"@.len());
            } else if k == 8 {
                reveal_strlit("h");
                assert("pb.go"@.len() != "h"@.len());
            } else if k == 9 {
                reveal_strlit("tsx");
                assert("pb.go"@.len() != "tsx"@.len());
            } else if k == 10 {
                reveal_strlit("jsx");
                assert("pb.go"@.len() != "jsx"@.len());
            }
        }
    }
    assert(binary_exts()[11]@ == e);
}

proof fn lemma_extension_min_js(e: Seq<char>, name: Seq<char>)
    requires
        e == "min.js"@,
    ensures
        role_by_extension(e, name) == FileRole::Generated,
{
    reveal_strlit("min.js");
    assert(!one_of(e, style_exts())) by {
        assert forall|k: int| 0 <= k < style_exts().len() implies style_exts()[k]@ != e by {
            if k == 0 {
                reveal_strlit("css");
                assert("min.js"@.len() != "css"@.len());
            } else if k == 1 {
                reveal_strlit("scss");
                assert("min.js"@.len() != "scss"@.len());
            } else if k == 2 {
                reveal_strlit("less");
                assert("min.js"@.len() != "less"@.len());
            } else if k == 3 {
                reveal_strlit("styl");
                assert("min.js"@.len() != "styl"@.len());
            }
        }
    }
    assert(!one_of(e, data_exts())) by {
        assert forall|k: int| 0 <= k < data_exts().len() implies data_exts()[k]@ != e by {
            if k == 0 {
                reveal_strlit("json");
                assert("min.js"@.len() != "json"@.len());
            } else if k == 1 {
                reveal_strlit("csv");
                assert("min.js"@.len() != "csv"@.len());
            } else if k == 2 {
                reveal_strlit("sql");
                assert("min.js"@.len() != "sql"@.len());
            }
        }
    }
    assert(!one_of(e, doc_exts())) by {
        assert forall|k: int| 0 <= k < doc_exts().len() implies doc_exts()[k]@ != e by {
            if k == 0 {
                reveal_strlit("md");
                assert("min.js"@.len() != "md"@.len());
            } else if k == 1 {
                reveal_strlit("mdx");
                assert("min.js"@.len() != "mdx"@.len());
            } else if k == 2 {
                reveal_strlit("rst");
                assert("min.js"@.len() != "rst"@.len());
            } else if k == 3 {
                reveal_strlit("txt");
                assert("min.js"@.len() != "txt"@.len());
            } else if k == 4 {
                reveal_strlit("html");
                assert("min.js"@.len() != "html"@.len());
            } else if k == 5 {
                reveal_strlit("htm");
                assert("min.js"@.len() != "htm"@.len());
            }
        }
    }
    assert(!one_of(e, config_exts())) by {
        assert forall|k: int| 0 <= k < config_exts().len() implies config_exts()[k]@ != e by {
            if k == 0 {
                reveal_strlit("toml");
                assert("min.js"@.len() != "toml"@.len());
            } else if k == 1 {
                reveal_strlit("yaml");
                assert("min.js"@.len() != "yaml"@.len());
            } else if k == 2 {
                reveal_strlit("yml");
                assert("min.js"@.len() != "yml"@.len());
            } else if k == 3 {
                reveal_strlit("env");
                assert("min.js"@.len() != "env"@.len());
            } else if k == 4 {
                reveal_strlit("conf");
                assert("min.js"@.len() != "conf"@.len());
            } else if k == 5 {
                reveal_strlit("properties");
                assert("min.js"@.len() != "properties"@.len());
            } else if k == 6 {
                reveal_strlit("ini");
                assert("min.js"@.len() != "ini"@.len());
            }
        }
    }
    assert(!one_of(e, schema_exts())) by {
        assert forall|k: int| 0 <= k < schema_exts().len() implies schema_exts()[k]@ != e by {
            if k == 0 {
                reveal_strlit("d.ts");
                assert("min.js"@.len() != "d.ts"@.len());
            } else if k == 1 {
                reveal_strlit("graphql");
                assert("min.js"@.len() != "graphql"@.len());
            } else if k == 2 {
                reveal_strlit("proto");
                assert("min.js"@.len() != "proto"@.len());
            } else if k == 3 {
                reveal_strlit("prisma");
                assert("min.js"@[0] != "prisma"@[0]);
            }
        }
    }
    assert(!one_of(e, source_exts())) by {
        assert forall|k: int| 0 <= k < source_exts().len() implies source_exts()[k]@ != e by {
            if k == 0 {
                reveal_strlit("rs");
                assert("min.js"@.len() != "rs"@.len());
            } else if k == 1 {
                reveal_strlit("ts");
                assert("min.js"@.len() != "ts"@.len());
            } else if k == 2 {
                reveal_strlit("js");
                assert("min.js"@.len() != "js"@.len());
            } else if k == 3 {
                reveal_strlit("py");
                assert("min.js"@.len() != "py"@.len());
            } else if k == 4 {
                reveal_strlit("go");
                assert("min.js"@.len() != "go"@.len());
            } else if k == 5 {
                reveal_strlit("java");
                assert("min.js"@.len() != "java"@.len());
            } else if k == 6 {
                reveal_strlit("c");
                assert("min.js"@.len() != "c"@.len());
            } else if k == 7 {
                reveal_strlit("cpp");
                assert("min.js"@.len() != "cpp"@.len());
            } else if k == 8 {
                reveal_strlit("h");
                assert("min.js"@.len() != "h"@.len());
            } else if k == 9 {
                reveal_strlit("tsx");
                assert("min.js"@.len() != "tsx"@.len());
            } else if k == 10 {
                reveal_strlit("jsx");
                assert("min.js"@.len() != "jsx"@.len());
            }
        }
    }
    assert(binary_exts()[12]@ == e);
}

/// What each extension makes of a file, by the extension itself: style sheets
/// (css, scss, less, styl), data (json, csv, sql), documentation (md, mdx,
/// rst, txt, html, htm), configuration (toml, yaml, yml, env, conf,
/// properties, ini), schemas (d.ts, graphql, proto, prisma), source (rs, ts,
/// js, py, go, java, c, cpp, h, tsx, jsx; an interface when the name mentions
/// types or an interface), binaries and minified files (generated); code for
/// any other extension.
pub proof fn law_roles_by_extension(e: Seq<char>, name: Seq<char>)
    ensures
        (e == "css"@ || e == "scss"@ || e == "less"@ || e == "styl"@) ==> role_by_extension(e, name) == FileRole::StyleSheet,
        (e == "json"@ || e == "csv"@ || e == "sql"@) ==> role_by_extension(e, name) == FileRole::DataFile,
        (e == "md"@ || e == "mdx"@ || e == "rst"@ || e == "txt"@ || e == "html"@ || e == "htm"@) ==> role_by_extension(e, name) == FileRole::Documentation,
        (e == "toml"@ || e == "yaml"@ || e == "yml"@ || e == "env"@ || e == "conf"@ || e == "properties"@ || e == "ini"@) ==> role_by_extension(e, name) == FileRole::Config,
        (e == "d.ts"@ || e == "graphql"@ || e == "proto"@ || e == "prisma"@) ==> role_by_extension(e, name) == FileRole::Schema,
        (e == "rs"@ || e == "ts"@ || e == "js"@ || e == "py"@ || e == "go"@ || e == "java"@ || e == "c"@ || e == "cpp"@ || e == "h"@ || e == "tsx"@ || e == "jsx"@) ==> role_by_extension(e, name) == if has_substring(name, "types"@) || has_substring(name, "interface"@) {
            FileRole::Interface
        } else {
            FileRole::CoreLogic
        },
        (e == "png"@ || e == "jpg"@ || e == "jpeg"@ || e == "gif"@ || e == "mp4"@ || e == "exe"@ || e == "dll"@ || e == "so"@ || e == "woff"@ || e == "woff2"@ || e == "pdf"@ || e == "pb.go"@ || e == "min.js"@) ==> role_by_extension(e, name) == FileRole::Generated,
        !(e == "css"@ || e == "scss"@ || e == "less"@ || e == "styl"@ || e == "json"@ || e == "csv"@ || e == "sql"@ || e == "md"@ || e == "mdx"@ || e == "rst"@ || e == "txt"@ || e == "html"@ || e == "htm"@ || e == "toml"@ || e == "yaml"@ || e == "yml"@ || e == "env"@ || e == "conf"@ || e == "properties"@ || e == "ini"@ || e == "d.ts"@ || e == "graphql"@ || e == "proto"@ || e == "prisma"@ || e == "rs"@ || e == "ts"@ || e == "js"@ || e == "py"@ || e == "go"@ || e == "java"@ || e == "c"@ || e == "cpp"@ || e == "h"@ || e == "tsx"@ || e == "jsx"@ || e == "png"@ || e == "jpg"@ || e == "jpeg"@ || e == "gif"@ || e == "mp4"@ || e == "exe"@ || e == "dll"@ || e == "so"@ || e == "woff"@ || e == "woff2"@ || e == "pdf"@ || e == "pb.go"@ || e == "min.js"@) ==> role_by_extension(e, name) == FileRole::CoreLogic,
{
    if e == "css"@ {
        lemma_extension_css(e, name);
    }
    if e == "scss"@ {
        lemma_extension_scss(e, name);
    }
    if e == "less"@ {
        lemma_extension_less(e, name);
    }
    if e == "styl"@ {
        lemma_extension_styl(e, name);
    }
    if e == "json"@ {
        lemma_extension_json(e, name);
    }
    if e == "csv"@ {
        lemma_extension_csv(e, name);
    }
    if e == "sql"@ {
        lemma_extension_sql(e, name);
    }
    if e == "md"@ {
        lemma_extension_md(e, name);
    }
    if e == "mdx"@ {
        lemma_extension_mdx(e, name);
    }
    if e == "rst"@ {
        lemma_extension_rst(e, name);
    }
    if e == "txt"@ {
        lemma_extension_txt(e, name);
    }
    if e == "html"@ {
        lemma_extension_html(e, name);
    }
    if e == "htm"@ {
        lemma_extension_htm(e, name);
    }
    if e == "toml"@ {
        lemma_extension_toml(e, name);
    }
    if e == "yaml"@ {
        lemma_extension_yaml(e, name);
    }
    if e == "yml"@ {
        lemma_extension_yml(e, name);
    }
    if e == "env"@ {
        lemma_extension_env(e, name);
    }
    if e == "conf"@ {
        lemma_extension_conf(e, name);
    }
    if e == "properties"@ {
        lemma_extension_properties(e, name);
    }
    if e == "ini"@ {
        lemma_extension_ini(e, name);
    }
    if e == "d.ts"@ {
        lemma_extension_d_ts(e, name);
    }
    if e == "graphql"@ {
        lemma_extension_graphql(e, name);
    }
    if e == "proto"@ {
        lemma_extension_proto(e, name);
    }
    if e == "prisma"@ {
        lemma_extension_prisma(e, name);
    }
    if e == "rs"@ {
        lemma_extension_rs(e, name);
    }
    if e == "ts"@ {
        lemma_extension_ts(e, name);
    }
    if e == "js"@ {
        lemma_extension_js(e, name);
    }
    if e == "py"@ {
        lemma_extension_py(e, name);
    }
    if e == "go"@ {
        lemma_extension_go(e, name);
    }
    if e == "java"@ {
        lemma_extension_java(e, name);
    }
    if e == "c"@ {
        lemma_extension_c(e, name);
    }
    if e == "cpp"@ {
        lemma_extension_cpp(e, name);
    }
    if e == "h"@ {
        lemma_extension_h(e, name);
    }
    if e == "tsx"@ {
        lemma_extension_tsx(e, name);
    }
    if e == "jsx"@ {
        lemma_extension_jsx(e, name);
    }
    if e == "png"@ {
        lemma_extension_png(e, name);
    }
    if e == "jpg"@ {
        lemma_extension_jpg(e, name);
    }
    if e == "jpeg"@ {
        lemma_extension_jpeg(e, name);
    }
    if e == "gif"@ {
        lemma_extension_gif(e, name);
    }
    if e == "mp4"@ {
        lemma_extension_mp4(e, name);
    }
    if e == "exe"@ {
        lemma_extension_exe(e, name);
    }
    if e == "dll"@ {
        lemma_extension_dll(e, name);
    }
    if e == "so"@ {
        lemma_extension_so(e, name);
    }
    if e == "woff"@ {
        lemma_extension_woff(e, name);
    }
    if e == "woff2"@ {
        lemma_extension_woff2(e, name);
    }
    if e == "pdf"@ {
        lemma_extension_pdf(e, name);
    }
    if e == "pb.go"@ {
        lemma_extension_pb_go(e, name);
    }
    if e == "min.js"@ {
        lemma_extension_min_js(e, name);
    }
    if !(e == "css"@ || e == "scss"@ || e == "less"@ || e == "styl"@ || e == "json"@ || e == "csv"@ || e == "sql"@ || e == "md"@ || e == "mdx"@ || e == "rst"@ || e == "txt"@ || e == "html"@ || e == "htm"@ || e == "toml"@ || e == "yaml"@ || e == "yml"@ || e == "env"@ || e == "conf"@ || e == "properties"@ || e == "ini"@ || e == "d.ts"@ || e == "graphql"@ || e == "proto"@ || e == "prisma"@ || e == "rs"@ || e == "ts"@ || e == "js"@ || e == "py"@ || e == "go"@ || e == "java"@ || e == "c"@ || e == "cpp"@ || e == "h"@ || e == "tsx"@ || e == "jsx"@ || e == "png"@ || e == "jpg"@ || e == "jpeg"@ || e == "gif"@ || e == "mp4"@ || e == "exe"@ || e == "dll"@ || e == "so"@ || e == "woff"@ || e == "woff2"@ || e == "pdf"@ || e == "pb.go"@ || e == "min.js"@) {
        assert(!one_of(e, style_exts())) by {
            assert forall|k: int| 0 <= k < style_exts().len() implies style_exts()[k]@ != e by {
                if k == 0 {
                } else if k == 1 {
                } else if k == 2 {
                } else if k == 3 {
                }
            }
        }
        assert(!one_of(e, data_exts())) by {
            assert forall|k: int| 0 <= k < data_exts().len() implies data_exts()[k]@ != e by {
                if k == 0 {
                } else if k == 1 {
                } else if k == 2 {
                }
            }
        }
        assert(!one_of(e, doc_exts())) by {
            assert forall|k: int| 0 <= k < doc_exts().len() implies doc_exts()[k]@ != e by {
                if k == 0 {
                } else if k == 1 {
                } else if k == 2 {
                } else if k == 3 {
                } else if k == 4 {
                } else if k == 5 {
                }
            }
        }
        assert(!one_of(e, config_exts())) by {
            assert forall|k: int| 0 <= k < config_exts().len() implies config_exts()[k]@ != e by {
                if k == 0 {
                } else if k == 1 {
                } else if k == 2 {
                } else if k == 3 {
                } else if k == 4 {
                } else if k == 5 {
                } else if k == 6 {
                }
            }
        }
        assert(!one_of(e, schema_exts())) by {
            assert forall|k: int| 0 <= k < schema_exts().len() implies schema_exts()[k]@ != e by {
                if k == 0 {
                } else if k == 1 {
                } else if k == 2 {
                } else if k == 3 {
                }
            }
        }
        assert(!one_of(e, source_exts())) by {
            assert forall|k: int| 0 <= k < source_exts().len() implies source_exts()[k]@ != e by {
                if k == 0 {
                } else if k == 1 {
                } else if k == 2 {
                } else if k == 3 {
                } else if k == 4 {
                } else if k == 5 {
                } else if k == 6 {
                } else if k == 7 {
                } else if k == 8 {
                } else if k == 9 {
                } else if k == 10 {
                }
            }
        }
        assert(!one_of(e, binary_exts())) by {
            assert forall|k: int| 0 <= k < binary_exts().len() implies binary_exts()[k]@ != e by {
                if k == 0 {
                } else if k == 1 {
                } else if k == 2 {
                } else if k == 3 {
                } else if k == 4 {
                } else if k == 5 {
                } else if k == 6 {
                } else if k == 7 {
                } else if k == 8 {
                } else if k == 9 {
                } else if k == 10 {
                } else if k == 11 {
                } else if k == 12 {
                }
            }
        }
    }
}

} // verus!
