# OpenFusion

OpenFusion asks a panel of language models the same question at once, lets a judge put
their answers together where one is wanted, and offers this as tools of an MCP server.
Models are reached over four wire protocols: OpenAI chat completions, OpenAI responses,
Anthropic messages and Gemini.

The library under `src/` decides; it is written in Verus, and every function states what
it does and is proved to do it. The program under `app/` does what a library cannot:
it reads files, talks to models and clients, and waits.

## The library

| module | what it holds |
| --- | --- |
| `protocol` | the common form of requests and responses, and the four protocols: reading requests, writing bodies, reading answers, writing responses |
| `protocol::stream` | streamed responses, put together and written |
| `protocol::gemini_shadow` | the turns of Gemini that are kept, to be shown to it again |
| `protocol::laws`, `chat_laws`, `gemini_laws`, `stream_laws`, `matrix` | what holds of the protocols as a whole: tool calls, tool results and thinking settings stay with a conversation, whatever protocol it comes in by and goes out by; what is sent is read back |
| `worker` | one model: what it is sent, and what is made of its answer |
| `engine` | the panel: who is asked, when to ask again, what the judge is told, what comes out, and what is kept of it |
| `mcp` | the tools |
| `config`, `error`, `server`, `cli` | settings, errors, the answers of the HTTP server, the command line |
| `json`, `text`, `ids`, `lookup`, `seqs` | JSON trees, text, identifiers, tables and sequences |

Costs and temperatures are floating-point numbers. The library carries them as their bits
and never computes with them; sums and scores are worked out in `app/`.

What is taken on trust stands in `json` (`serde_json`), `ids` (`uuid` and `chrono`),
`worker` (`reqwest::StatusCode`) and `text` (two functions of the standard library). Each
such item says which outside function it stands for and what it claims of it.
