# grok_video

An MCP server that generates videos through the Grok video API: from a text
prompt, from a still image or from an existing video.

`src/` holds the decisions, verified with Verus. `app/` holds what surrounds
them: standard input and output, HTTP, files, the clock and the environment.

- `text`: comparing, joining and counting in texts
- `status`: HTTP status codes
- `validate`: the parameters of the tools
- `encoding`: the base64 encoding and its decoding
- `path`: directories and the paths of their entries
- `media`: content types, data URIs and the format of a video
- `request`: the messages of the API and the parameters of the tools
- `poll`: submitting a request and polling for the video
- `download`: saving the video
- `server`: the tools
- `config`: the configuration and where it is found
- `outside`: the calls into other crates, with the contracts taken on trust

Polling, downloading, the search for a configuration and the tool calls as a
whole are state machines. Each state names the effect it waits for; the caller
carries it out and answers with an event. The contract of every step is exact,
and the laws over whole runs (when polling is given up, what is written to the
file, what the reply says) are proof functions beside the machines.
